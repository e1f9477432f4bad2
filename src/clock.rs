//! The wall-clock time of day, as seconds since midnight UTC and as `HH:MM:SS`.

use vstd::prelude::*;
use vstd::string::StringExecFns;
use chrono::Timelike;
use crate::text::{decimal, decimal_text};

verus! {

/// Seconds in a day without a leap second.
pub const SECONDS_PER_DAY: u32 = 86400;

/// Relies on `From<SystemTime> for DateTime<Utc>` and
/// `Timelike::num_seconds_from_midnight` of chrono: the seconds since the last
/// midnight UTC, below one day. A clock that reads before 1970 gives a negative
/// timestamp there, not a panic.
#[verifier::external_body]
pub(crate) fn utc_seconds_of_day() -> (r: u32)
    ensures
        r < SECONDS_PER_DAY,
{
    chrono::DateTime::<chrono::Utc>::from(std::time::SystemTime::now()).num_seconds_from_midnight()
}

/// A value below one hundred as two decimal digits, with a leading zero below ten.
pub open spec fn two_digits(n: nat) -> Seq<char> {
    if n < 10 {
        "0"@ + decimal(n)
    } else {
        decimal(n)
    }
}

/// The time of day `secs` seconds after midnight, as `HH:MM:SS` on a 24-hour clock.
pub open spec fn clock_text(secs: nat) -> Seq<char> {
    two_digits(secs / 3600) + ":"@ + two_digits((secs % 3600) / 60) + ":"@ + two_digits(secs % 60)
}

proof fn lemma_two_digits_len(n: nat)
    requires
        n < 100,
    ensures
        two_digits(n).len() == 2,
{
    reveal_strlit("0");
    reveal_with_fuel(decimal, 2);
}

/// `n` as two decimal digits.
fn two_digit_text(n: u32) -> (r: String)
    requires
        n < 100,
    ensures
        r@ == two_digits(n as nat),
{
    let digits = decimal_text(n as u64);
    if n < 10 {
        String::from_str("0").concat(digits.as_str())
    } else {
        digits
    }
}

/// The time of day `seconds_of_day` seconds after midnight, as `HH:MM:SS`.
pub fn format_clock(seconds_of_day: u32) -> (r: String)
    requires
        seconds_of_day < SECONDS_PER_DAY,
    ensures
        r@ == clock_text(seconds_of_day as nat),
        r@.len() == 8,
{
    let hours = two_digit_text(seconds_of_day / 3600);
    let minutes = two_digit_text((seconds_of_day % 3600) / 60);
    let seconds = two_digit_text(seconds_of_day % 60);
    proof {
        reveal_strlit(":");
        lemma_two_digits_len((seconds_of_day / 3600) as nat);
        lemma_two_digits_len(((seconds_of_day % 3600) / 60) as nat);
        lemma_two_digits_len((seconds_of_day % 60) as nat);
    }
    hours.concat(":").concat(minutes.as_str()).concat(":").concat(seconds.as_str())
}

/// The current time of day in UTC, as `HH:MM:SS`.
pub fn utc_timestamp() -> (r: String)
    ensures
        exists|secs: nat| secs < SECONDS_PER_DAY && r@ == clock_text(secs),
{
    let secs = utc_seconds_of_day();
    format_clock(secs)
}

} // verus!
