//! Time and channel handles from std, carried by the state models.

use std::sync::mpsc::{Receiver, Sender};
use std::time::{Instant, SystemTime};
use vstd::prelude::*;

use crate::text::is_ascii_digit;

verus! {

/// `std::time::Instant`.
#[verifier::external_type_specification]
#[verifier::external_body]
pub struct ExInstant(Instant);

/// `std::sync::mpsc::Sender`.
#[verifier::external_type_specification]
#[verifier::external_body]
#[verifier::reject_recursive_types(T)]
pub struct ExSender<T>(Sender<T>);

/// Wrapper of `Instant::now`: the current monotonic time.
#[verifier::external_body]
pub(crate) fn instant_now() -> (t: Instant) {
    Instant::now()
}

/// Wrapper of `Instant::elapsed` in whole milliseconds (`as_millis`).
#[verifier::external_body]
pub(crate) fn elapsed_millis(t: &Instant) -> (ms: u128) {
    t.elapsed().as_millis()
}

/// Wrapper of `std::sync::mpsc::channel`: a fresh, connected pair.
#[verifier::external_body]
pub(crate) fn channel<T>() -> (pair: (Sender<T>, Receiver<T>)) {
    std::sync::mpsc::channel::<T>()
}

/// `std::time::SystemTime`.
#[verifier::external_type_specification]
#[verifier::external_body]
pub struct ExSystemTime(SystemTime);

/// Wrapper of `SystemTime::now`: a wall-clock reading, of which nothing is
/// promised.
#[verifier::external_body]
pub(crate) fn system_now() -> (t: SystemTime) {
    SystemTime::now()
}

/// Wrapper of `SystemTime::duration_since(UNIX_EPOCH)`, in nanoseconds
/// (`Duration::as_nanos`); `None` for a reading before the epoch. Nothing
/// is promised of the value: it depends on the clock.
#[verifier::external_body]
pub(crate) fn unix_epoch_nanos(t: &SystemTime) -> (n: Option<u128>) {
    t.duration_since(std::time::UNIX_EPOCH).ok().map(|d| d.as_nanos())
}

/// A calendar date as `%Y-%m-%d` writes it: the year in four or more
/// digits (a `+` before it past year 9999), then `-`, two month digits,
/// `-`, two day digits.
pub open spec fn iso_date_shape(s: Seq<char>) -> bool {
    let n = s.len() as int;
    &&& n >= 10
    &&& s[n - 6] == '-' && s[n - 3] == '-'
    &&& is_ascii_digit(s[n - 5]) && is_ascii_digit(s[n - 4])
    &&& is_ascii_digit(s[n - 2]) && is_ascii_digit(s[n - 1])
    &&& forall|i: int| 0 <= i < n - 6 ==> is_ascii_digit(#[trigger] s[i]) || (i == 0 && s[i] == '+')
}

/// Wrapper of chrono's `DateTime::<Utc>::from_timestamp(secs, 0)`, formatted
/// with `format("%Y-%m-%d")`: the UTC calendar date of a Unix timestamp,
/// or `None` where chrono's range ends. chrono writes the year zero-padded
/// to four digits (with a `+` sign past 9999; the `requires` keeps the year
/// from going below 1968, where no sign is written) and month and day as
/// two digits each. Which date comes out is not stated: it takes chrono's
/// calendar to say.
#[verifier::external_body]
pub(crate) fn utc_date_of_timestamp(secs: i64) -> (r: Option<String>)
    requires
        secs >= -31_622_400,
    ensures
        r matches Some(s) ==> iso_date_shape(s@),
{
    match chrono::DateTime::<chrono::Utc>::from_timestamp(secs, 0) {
        Some(d) => Some(d.format("%Y-%m-%d").to_string()),
        None => None,
    }
}

/// The UTC calendar date `days` days before the clock's reading, as
/// `%Y-%m-%d`; `None` when the clock reads before the Unix epoch or past
/// the range of the calendar.
pub(crate) fn utc_date_days_ago(days: i64) -> (r: Option<String>)
    requires
        0 <= days <= 366,
    ensures
        r matches Some(s) ==> iso_date_shape(s@),
{
    let now = system_now();
    match unix_epoch_nanos(&now) {
        None => None,
        Some(n) => {
            let secs = n / 1_000_000_000;
            if secs > 0x7fff_ffff_ffff_ffffu128 {
                return None;
            }
            let s = secs as i64;
            utc_date_of_timestamp(s - days * 86_400)
        },
    }
}

} // verus!
