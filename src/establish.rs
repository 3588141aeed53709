//! The decisions taken while creating the listening endpoint: how a failure
//! is classified, and whether a new attempt follows.
use vstd::prelude::*;

verus! {

/// The system error code that reports an existing instance of the name.
pub const ERROR_ACCESS_DENIED: i32 = 5;

/// The system error code that reports a rejected configuration, here the
/// restriction to local peers.
pub const ERROR_INVALID_PARAMETER: i32 = 87;

/// The number of attempts that collisions may consume.
pub const MAX_ATTEMPTS: u32 = 10;

/// Why creating the listening endpoint failed, as far as the retry rules
/// tell failures apart.
#[derive(Clone, Copy, Debug, PartialEq, Eq, Structural)]
pub enum CreateFailure {
    /// An instance with the chosen name exists already.
    NameCollision,
    /// The restriction to local peers is not accepted.
    RestrictionUnsupported,
    /// Anything else: fatal.
    Other,
}

/// The classification of a failure by its system error code, if it has one.
pub open spec fn failure_of(raw_os_error: Option<i32>) -> CreateFailure {
    match raw_os_error {
        Some(code) => if code == ERROR_ACCESS_DENIED {
            CreateFailure::NameCollision
        } else if code == ERROR_INVALID_PARAMETER {
            CreateFailure::RestrictionUnsupported
        } else {
            CreateFailure::Other
        },
        None => CreateFailure::Other,
    }
}

/// Classifies a failure to create the listening endpoint by its system
/// error code.
pub fn classify(raw_os_error: Option<i32>) -> (r: CreateFailure)
    ensures
        r == failure_of(raw_os_error),
{
    match raw_os_error {
        Some(code) => {
            if code == ERROR_ACCESS_DENIED {
                CreateFailure::NameCollision
            } else if code == ERROR_INVALID_PARAMETER {
                CreateFailure::RestrictionUnsupported
            } else {
                CreateFailure::Other
            }
        },
        None => CreateFailure::Other,
    }
}

/// Where the creation loop stands before an attempt.
#[derive(Clone, Copy, Debug, PartialEq, Eq, Structural)]
pub struct TryState {
    /// Attempts already counted against the budget.
    pub tries: u32,
    /// Whether the next attempt restricts the endpoint to local peers.
    pub reject_remote_clients: bool,
}

/// What follows a failed attempt.
#[derive(Clone, Copy, Debug, PartialEq, Eq, Structural)]
pub enum Step {
    /// Draw a new name and try again from this state.
    Retry(TryState),
    /// Stop and return the error of the attempt that just failed.
    GiveUp,
}

impl TryState {
    /// A state that the loop can be in: the budget is not spent.
    pub open spec fn wf(self) -> bool {
        self.tries < MAX_ATTEMPTS
    }

    /// The state before the first attempt.
    pub open spec fn initial() -> TryState {
        TryState { tries: 0, reject_remote_clients: true }
    }

    /// The step after the attempt made from `self` failed with `f`. A
    /// collision counts against the budget, and the loop gives up once the
    /// budget is spent. A rejected restriction to local peers is dropped once,
    /// and the attempt without it counts nothing.
    pub open spec fn next(self, f: CreateFailure) -> Step {
        match f {
            CreateFailure::NameCollision => if self.tries + 1 < MAX_ATTEMPTS {
                Step::Retry(
                    TryState {
                        tries: (self.tries + 1) as u32,
                        reject_remote_clients: self.reject_remote_clients,
                    },
                )
            } else {
                Step::GiveUp
            },
            CreateFailure::RestrictionUnsupported => if self.reject_remote_clients {
                Step::Retry(TryState { tries: self.tries, reject_remote_clients: false })
            } else {
                Step::GiveUp
            },
            CreateFailure::Other => Step::GiveUp,
        }
    }

    /// The state before the first attempt.
    pub fn new() -> (r: TryState)
        ensures
            r == TryState::initial(),
            r.wf(),
    {
        TryState { tries: 0, reject_remote_clients: true }
    }

    /// Decides what follows when the attempt made from `self` failed with
    /// `f`.
    pub fn after_failure(self, f: CreateFailure) -> (r: Step)
        requires
            self.wf(),
        ensures
            r == self.next(f),
            r matches Step::Retry(s) ==> s.wf(),
    {
        match f {
            CreateFailure::NameCollision => {
                let counted: u32 = self.tries + 1;
                if counted < MAX_ATTEMPTS {
                    Step::Retry(
                        TryState { tries: counted, reject_remote_clients: self.reject_remote_clients },
                    )
                } else {
                    Step::GiveUp
                }
            },
            CreateFailure::RestrictionUnsupported => {
                if self.reject_remote_clients {
                    Step::Retry(TryState { tries: self.tries, reject_remote_clients: false })
                } else {
                    Step::GiveUp
                }
            },
            CreateFailure::Other => Step::GiveUp,
        }
    }
}

/// The index of the failure after which the loop gives up, when the attempts
/// made from `s` fail with `fs` in turn; `None` if it has not given up by the
/// end of `fs`.
pub open spec fn give_up_index(s: TryState, fs: Seq<CreateFailure>) -> Option<nat>
    decreases fs.len(),
{
    if fs.len() == 0 {
        None
    } else {
        match s.next(fs[0]) {
            Step::GiveUp => Some(0),
            Step::Retry(t) => match give_up_index(t, fs.drop_first()) {
                Some(i) => Some(i + 1),
                None => None,
            },
        }
    }
}

/// Collisions from a state that still restricts to local peers leave it
/// restricting, and use up the rest of the budget: the loop gives up at the
/// collision that makes the count reach the budget.
proof fn lemma_collisions_from(s: TryState, fs: Seq<CreateFailure>)
    requires
        s.wf(),
        fs.len() >= MAX_ATTEMPTS - s.tries,
        forall|i: int| 0 <= i < fs.len() ==> fs[i] == CreateFailure::NameCollision,
    ensures
        give_up_index(s, fs) == Some((MAX_ATTEMPTS - s.tries - 1) as nat),
    decreases MAX_ATTEMPTS - s.tries,
{
    if s.tries + 1 < MAX_ATTEMPTS {
        let t = TryState { tries: (s.tries + 1) as u32, reject_remote_clients: s.reject_remote_clients };
        let rest = fs.drop_first();
        assert forall|i: int| 0 <= i < rest.len() implies rest[i] == CreateFailure::NameCollision by {
            assert(rest[i] == fs[i + 1]);
        }
        lemma_collisions_from(t, rest);
    }
}

/// When every attempt fails with a name collision, the loop gives up after
/// exactly ten attempts, returning the error of the tenth.
pub proof fn law_collision_budget(fs: Seq<CreateFailure>)
    requires
        fs.len() >= MAX_ATTEMPTS,
        forall|i: int| 0 <= i < fs.len() ==> fs[i] == CreateFailure::NameCollision,
    ensures
        give_up_index(TryState::initial(), fs) == Some(9nat),
{
    lemma_collisions_from(TryState::initial(), fs);
}

/// When an attempt fails because the restriction to local peers is not
/// accepted, the next attempt drops the restriction and the budget is as
/// before, whatever was counted already. In particular, after such a failure
/// on the first attempt, ten collisions still pass before the loop gives up.
pub proof fn law_restriction_fallback_is_free(s: TryState, fs: Seq<CreateFailure>)
    requires
        s.wf(),
        fs.len() >= 1,
        fs[0] == CreateFailure::RestrictionUnsupported,
    ensures
        s.reject_remote_clients ==> s.next(fs[0]) == Step::Retry(
            TryState { tries: s.tries, reject_remote_clients: false },
        ),
        TryState::initial().next(fs[0]) == Step::Retry(
            TryState { tries: 0, reject_remote_clients: false },
        ),
        fs.len() >= 1 + MAX_ATTEMPTS && (forall|i: int|
            1 <= i < fs.len() ==> fs[i] == CreateFailure::NameCollision) ==> give_up_index(
            TryState::initial(),
            fs,
        ) == Some(10nat),
{
    let t = TryState { tries: 0, reject_remote_clients: false };
    let rest = fs.drop_first();
    if fs.len() >= 1 + MAX_ATTEMPTS && (forall|i: int|
        1 <= i < fs.len() ==> fs[i] == CreateFailure::NameCollision) {
        assert forall|i: int| 0 <= i < rest.len() implies rest[i] == CreateFailure::NameCollision by {
            assert(rest[i] == fs[i + 1]);
        }
        lemma_collisions_from(t, rest);
    }
}

/// From a state that no longer restricts, at most the rest of the budget of
/// attempts fail before the loop gives up.
proof fn lemma_bounded_unrestricted(s: TryState, fs: Seq<CreateFailure>)
    requires
        s.wf(),
        !s.reject_remote_clients,
        fs.len() >= MAX_ATTEMPTS - s.tries,
    ensures
        give_up_index(s, fs) matches Some(i) && i < MAX_ATTEMPTS - s.tries,
    decreases MAX_ATTEMPTS - s.tries,
{
    match s.next(fs[0]) {
        Step::GiveUp => {},
        Step::Retry(t) => {
            lemma_bounded_unrestricted(t, fs.drop_first());
        },
    }
}

/// From any state of the loop, at most the rest of the budget plus one
/// attempts fail before the loop gives up.
proof fn lemma_bounded(s: TryState, fs: Seq<CreateFailure>)
    requires
        s.wf(),
        fs.len() >= MAX_ATTEMPTS - s.tries + 1,
    ensures
        give_up_index(s, fs) matches Some(i) && i <= MAX_ATTEMPTS - s.tries,
    decreases MAX_ATTEMPTS - s.tries,
{
    match s.next(fs[0]) {
        Step::GiveUp => {},
        Step::Retry(t) => {
            if t.reject_remote_clients {
                lemma_bounded(t, fs.drop_first());
            } else {
                lemma_bounded_unrestricted(t, fs.drop_first());
            }
        },
    }
}

/// Whatever the failures, creating the listening endpoint stops after at
/// most eleven failed attempts: ten counted ones and the one that dropped the
/// restriction to local peers.
pub proof fn law_attempts_bounded(fs: Seq<CreateFailure>)
    requires
        fs.len() >= MAX_ATTEMPTS + 1,
    ensures
        give_up_index(TryState::initial(), fs) matches Some(i) && i <= MAX_ATTEMPTS,
{
    lemma_bounded(TryState::initial(), fs);
}

} // verus!
