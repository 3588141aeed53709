//! Channel names: the process id and a random value in the private pipe
//! namespace.
use vstd::prelude::*;
use vstd::string::StringExecFns;

verus! {

/// The character of a decimal digit.
pub open spec fn digit_char(d: nat) -> char {
    seq!['0', '1', '2', '3', '4', '5', '6', '7', '8', '9'][d as int]
}

/// The decimal representation of `n`, most significant digit first.
pub open spec fn decimal(n: nat) -> Seq<char>
    decreases n,
{
    if n < 10 {
        seq![digit_char(n)]
    } else {
        decimal(n / 10).push(digit_char(n % 10))
    }
}

/// The namespace and fixed part that every channel name starts with.
pub open spec fn name_prefix() -> Seq<char> {
    "\\\\.\\pipe\\__tokio_anonymous_pipe0__."@
}

/// The channel name made of a process id and a random value.
pub open spec fn pipe_name_of(pid: u32, random: usize) -> Seq<char> {
    name_prefix() + decimal(pid as nat) + seq!['.'] + decimal(random as nat)
}

fn digit_str(d: u64) -> (r: &'static str)
    requires
        d < 10,
    ensures
        r@ == seq![digit_char(d as nat)],
{
    proof {
        reveal_strlit("0");
        reveal_strlit("1");
        reveal_strlit("2");
        reveal_strlit("3");
        reveal_strlit("4");
        reveal_strlit("5");
        reveal_strlit("6");
        reveal_strlit("7");
        reveal_strlit("8");
        reveal_strlit("9");
    }
    match d {
        0 => "0",
        1 => "1",
        2 => "2",
        3 => "3",
        4 => "4",
        5 => "5",
        6 => "6",
        7 => "7",
        8 => "8",
        _ => "9",
    }
}

/// Appends the decimal representation of `n` to `s`.
pub fn push_decimal(s: &mut String, n: u64)
    ensures
        final(s)@ == old(s)@ + decimal(n as nat),
    decreases n,
{
    if n < 10 {
        s.append(digit_str(n));
    } else {
        push_decimal(s, n / 10);
        s.append(digit_str(n % 10));
        assert(final(s)@ =~= old(s)@ + decimal(n as nat));
    }
}

/// The channel name for process `pid` and the random value `random`.
pub fn pipe_name(pid: u32, random: usize) -> (r: String)
    ensures
        r@ == pipe_name_of(pid, random),
{
    let mut s = String::from_str("\\\\.\\pipe\\__tokio_anonymous_pipe0__.");
    push_decimal(&mut s, pid as u64);
    s.append(".");
    proof {
        reveal_strlit(".");
    }
    push_decimal(&mut s, random as u64);
    assert(s@ =~= pipe_name_of(pid, random));
    s
}

/// Relies on rand::random: a value drawn from the thread-local generator.
/// Nothing is known of the value.
pub assume_specification<T>[ rand::random::<T> ]() -> T
    where
        rand::distributions::Standard: rand::distributions::Distribution<T>,
;

/// A fresh channel name for process `pid`, with a newly drawn random value.
/// Each attempt to create a listening endpoint takes a new one.
pub fn genname(pid: u32) -> (r: String)
    ensures
        exists|random: usize| r@ == pipe_name_of(pid, random),
{
    let random: usize = rand::random::<usize>();
    pipe_name(pid, random)
}

} // verus!
