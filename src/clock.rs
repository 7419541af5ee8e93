//! Wall-clock readings and the latency between two of them.
use vstd::prelude::*;

verus! {

/// Relies on `SystemTime::now` and `SystemTime::duration_since(UNIX_EPOCH)`:
/// the time since the epoch, or `None` when the clock reads earlier.
#[verifier::external_body]
fn since_epoch() -> (r: Option<core::time::Duration>) {
    std::time::SystemTime::now().duration_since(std::time::UNIX_EPOCH).ok()
}

/// Relies on `Duration::as_millis`: the whole milliseconds in `d`, at most
/// `u64::MAX` seconds and 999 milliseconds, the longest a `Duration` holds.
#[verifier::external_body]
fn whole_millis(d: &core::time::Duration) -> (r: u128)
    ensures
        r <= 18446744073709551615999u128,
{
    d.as_millis()
}

/// Milliseconds since the Unix epoch, or `None` when the clock reads earlier;
/// a reading always fits in an `i128`, so two of them give a latency.
pub fn now_ms() -> (r: Option<u128>)
    ensures
        r matches Some(m) ==> m <= 18446744073709551615999u128,
        r matches Some(m) ==> m <= i128::MAX,
{
    match since_epoch() {
        Some(d) => Some(whole_millis(&d)),
        None => None,
    }
}

/// Signed difference `t1 - t0` of two millisecond readings, so that a clock
/// that stepped back shows as a negative latency rather than wrapping.
pub fn latency_ms(t0: u128, t1: u128) -> (r: i128)
    requires
        t0 <= i128::MAX,
        t1 <= i128::MAX,
    ensures
        r == t1 - t0,
        t0 <= t1 ==> r >= 0,
{
    t1 as i128 - t0 as i128
}

} // verus!
