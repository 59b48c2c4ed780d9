//! The wall-clock stamp that precedes the diagnostics of a request.

use std::time::{Duration, SystemTime, SystemTimeError, UNIX_EPOCH};
use vstd::prelude::*;
use vstd::string::StringExecFns;

verus! {

/// `std::time::SystemTime`, a reading of the system clock. Nothing is known
/// of what a value holds.
#[verifier::external_type_specification]
#[verifier::external_body]
pub struct ExSystemTime(std::time::SystemTime);

/// `std::time::SystemTimeError`, returned where one clock reading is taken
/// from an earlier one. Nothing is known of what a value holds.
#[verifier::external_type_specification]
#[verifier::external_body]
pub struct ExSystemTimeError(std::time::SystemTimeError);

/// `SystemTime::now` reads the system clock. Nothing is claimed of the
/// reading: it differs from call to call.
pub assume_specification[ std::time::SystemTime::now ]() -> (now: SystemTime)
;

/// `Duration::as_secs` gives the whole seconds of a duration. Nothing is
/// claimed of the number beyond its type.
pub assume_specification[ core::time::Duration::as_secs ](span: &Duration) -> (secs: u64)
;

/// `SystemTime::duration_since`, with `UNIX_EPOCH` as the earlier reading:
/// the time elapsed since the epoch, or an error where `at` lies before it.
/// Nothing is claimed of which of the two comes back, nor of the duration.
#[verifier::external_body]
fn since_unix_epoch(at: &SystemTime) -> (elapsed: Result<Duration, SystemTimeError>) {
    at.duration_since(UNIX_EPOCH)
}

/// Why no stamp could be made.
#[derive(Clone, Copy, Debug, PartialEq, Eq, Structural)]
pub enum ClockError {
    /// The system clock reads a time before the Unix epoch.
    BeforeEpoch,
}

/// The character of a decimal digit.
pub open spec fn digit_char(d: nat) -> char
    recommends
        d < 10,
{
    if d == 0 {
        '0'
    } else if d == 1 {
        '1'
    } else if d == 2 {
        '2'
    } else if d == 3 {
        '3'
    } else if d == 4 {
        '4'
    } else if d == 5 {
        '5'
    } else if d == 6 {
        '6'
    } else if d == 7 {
        '7'
    } else if d == 8 {
        '8'
    } else {
        '9'
    }
}

/// A number below one hundred in two decimal digits, with a leading zero.
pub open spec fn two_digits(n: nat) -> Seq<char>
    recommends
        n < 100,
{
    seq![digit_char(n / 10), digit_char(n % 10)]
}

/// The stamp for a count of seconds since the epoch: hour of the day, minute
/// and second in UTC, as `[HH:MM:SS]`.
pub open spec fn clock_text(total_secs: nat) -> Seq<char> {
    seq!['['] + two_digits((total_secs / 3600) % 24) + seq![':'] + two_digits(
        (total_secs / 60) % 60,
    ) + seq![':'] + two_digits(total_secs % 60) + seq![']']
}

/// The one-character text of a decimal digit.
fn digit_str(d: u64) -> (s: &'static str)
    requires
        d < 10,
    ensures
        s@ == seq![digit_char(d as nat)],
{
    proof {
        reveal_strlit("0");
        reveal_strlit("1");
        reveal_strlit("2");
        reveal_strlit("3");
        reveal_strlit("4");
        reveal_strlit("5");
        reveal_strlit("6");
        reveal_strlit("7");
        reveal_strlit("8");
        reveal_strlit("9");
    }
    let s = match d {
        0 => "0",
        1 => "1",
        2 => "2",
        3 => "3",
        4 => "4",
        5 => "5",
        6 => "6",
        7 => "7",
        8 => "8",
        _ => "9",
    };
    assert(s@ =~= seq![digit_char(d as nat)]);
    s
}

/// Appends a number below one hundred in two decimal digits.
fn push_two_digits(out: &mut String, n: u64)
    requires
        n < 100,
    ensures
        final(out)@ == old(out)@ + two_digits(n as nat),
{
    out.append(digit_str(n / 10));
    out.append(digit_str(n % 10));
    assert(out@ =~= old(out)@ + two_digits(n as nat));
}

/// Formats a count of seconds since the epoch as `[HH:MM:SS]`.
pub fn format_time(total_secs: u64) -> (stamp: String)
    ensures
        stamp@ == clock_text(total_secs as nat),
{
    let hours: u64 = (total_secs / 3600) % 24;
    let minutes: u64 = (total_secs / 60) % 60;
    let seconds: u64 = total_secs % 60;
    proof {
        reveal_strlit("[");
        reveal_strlit(":");
        reveal_strlit("]");
    }
    let mut stamp = String::new();
    stamp.append("[");
    push_two_digits(&mut stamp, hours);
    stamp.append(":");
    push_two_digits(&mut stamp, minutes);
    stamp.append(":");
    push_two_digits(&mut stamp, seconds);
    stamp.append("]");
    assert(stamp@ =~= clock_text(total_secs as nat));
    stamp
}

/// Reads the system clock and formats the time of day as `[HH:MM:SS]`.
/// The stamp is that of some count of seconds; a clock set before the epoch
/// gives `BeforeEpoch`.
pub fn get_time() -> (res: Result<String, ClockError>)
    ensures
        res matches Ok(stamp) ==> exists|secs: u64| stamp@ == clock_text(secs as nat),
{
    let now = SystemTime::now();
    match since_unix_epoch(&now) {
        Ok(elapsed) => Ok(format_time(elapsed.as_secs())),
        Err(_) => Err(ClockError::BeforeEpoch),
    }
}

} // verus!
