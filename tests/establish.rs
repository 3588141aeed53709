use tokio_anon_pipe::establish::{ERROR_ACCESS_DENIED, ERROR_INVALID_PARAMETER, MAX_ATTEMPTS};
use tokio_anon_pipe::{classify, CreateFailure, Step, TryState};

/// Runs the creation loop against a list of failures and returns how many
/// attempts were made before it gave up, or `None` if the list ran out.
fn attempts_until_give_up(failures: &[CreateFailure]) -> Option<usize> {
    let mut state = TryState::new();
    for (i, f) in failures.iter().enumerate() {
        match state.after_failure(*f) {
            Step::Retry(next) => state = next,
            Step::GiveUp => return Some(i + 1),
        }
    }
    None
}

#[test]
fn classify_known_codes() {
    assert_eq!(classify(Some(5)), CreateFailure::NameCollision);
    assert_eq!(classify(Some(87)), CreateFailure::RestrictionUnsupported);
    assert_eq!(classify(Some(2)), CreateFailure::Other);
    assert_eq!(classify(None), CreateFailure::Other);
    assert_eq!(ERROR_ACCESS_DENIED, 5);
    assert_eq!(ERROR_INVALID_PARAMETER, 87);
}

#[test]
fn initial_state_restricts_and_counts_nothing() {
    let s = TryState::new();
    assert_eq!(s, TryState { tries: 0, reject_remote_clients: true });
}

#[test]
fn collision_counts_one_attempt() {
    let s = TryState::new();
    assert_eq!(
        s.after_failure(CreateFailure::NameCollision),
        Step::Retry(TryState { tries: 1, reject_remote_clients: true })
    );
}

#[test]
fn collisions_give_up_at_the_tenth_attempt() {
    let failures = vec![CreateFailure::NameCollision; 20];
    assert_eq!(attempts_until_give_up(&failures), Some(10));
    assert_eq!(MAX_ATTEMPTS, 10);
    let nine = vec![CreateFailure::NameCollision; 9];
    assert_eq!(attempts_until_give_up(&nine), None);
}

#[test]
fn restriction_fallback_does_not_count() {
    let s = TryState::new();
    assert_eq!(
        s.after_failure(CreateFailure::RestrictionUnsupported),
        Step::Retry(TryState { tries: 0, reject_remote_clients: false })
    );
    let mut failures = vec![CreateFailure::RestrictionUnsupported];
    failures.extend(vec![CreateFailure::NameCollision; 20]);
    assert_eq!(attempts_until_give_up(&failures), Some(11));
}

#[test]
fn restriction_fallback_happens_once() {
    let failures = vec![
        CreateFailure::RestrictionUnsupported,
        CreateFailure::RestrictionUnsupported,
    ];
    assert_eq!(attempts_until_give_up(&failures), Some(2));
}

#[test]
fn restriction_after_collisions_keeps_the_count() {
    let mut failures = vec![CreateFailure::NameCollision; 3];
    failures.push(CreateFailure::RestrictionUnsupported);
    failures.extend(vec![CreateFailure::NameCollision; 20]);
    assert_eq!(attempts_until_give_up(&failures), Some(11));
}

#[test]
fn restriction_on_the_last_attempt_retries() {
    let s = TryState { tries: 9, reject_remote_clients: true };
    assert_eq!(
        s.after_failure(CreateFailure::RestrictionUnsupported),
        Step::Retry(TryState { tries: 9, reject_remote_clients: false })
    );
}

#[test]
fn restriction_after_nine_collisions_gets_one_more_attempt() {
    let mut failures = vec![CreateFailure::NameCollision; 9];
    failures.push(CreateFailure::RestrictionUnsupported);
    failures.extend(vec![CreateFailure::NameCollision; 5]);
    assert_eq!(attempts_until_give_up(&failures), Some(11));
    let mut fatal = vec![CreateFailure::NameCollision; 9];
    fatal.push(CreateFailure::RestrictionUnsupported);
    fatal.push(CreateFailure::Other);
    assert_eq!(attempts_until_give_up(&fatal), Some(11));
}

#[test]
fn other_failure_gives_up_at_once() {
    assert_eq!(attempts_until_give_up(&[CreateFailure::Other]), Some(1));
    let failures = vec![CreateFailure::NameCollision, CreateFailure::Other];
    assert_eq!(attempts_until_give_up(&failures), Some(2));
}
