//! The clock: formatted local time and seconds since the Unix epoch.
use vstd::prelude::*;

verus! {

/// The local time, formatted `HH:MM:SS YYYY/MM/DD`: `chrono::Local::now().format(..)`.
/// Trusted, and nothing is stated of the result: it depends on the clock and on the
/// machine's time zone.
#[verifier::external_body]
pub fn formatted_time() -> String {
    chrono::Local::now().format("%H:%M:%S %Y/%m/%d").to_string()
}

/// Whole seconds since the Unix epoch by the system clock: `SystemTime::now()` measured with
/// `duration_since(UNIX_EPOCH)`. Trusted, and nothing is stated of the result, which is the
/// clock's. Like the expression it wraps, it panics where the clock reads before 1970.
#[verifier::external_body]
fn seconds_since_epoch() -> u64 {
    std::time::SystemTime::now().duration_since(std::time::UNIX_EPOCH).unwrap().as_secs()
}

/// The current Unix time in seconds, as a `usize` (the value is truncated where `usize` is
/// narrower than the clock's reading).
pub fn timestamp() -> usize {
    let secs = seconds_since_epoch();
    #[verifier::truncate]
    (secs as usize)
}

} // verus!
