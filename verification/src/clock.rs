//! The clock that the reassembler reads to age partial messages.
//!
//! `Instant` and `Duration` are carried through the library unopened: what a
//! reading of the clock gives back depends on the time, so nothing about its
//! value is stated here.

use vstd::prelude::*;

verus! {

/// Declares `std::time::Instant` so that library values can hold one.
#[verifier::external_type_specification]
#[verifier::external_body]
pub struct ExInstant(std::time::Instant);

/// `Instant::clone`: `Instant` is `Copy`, so a clone is the same instant.
pub assume_specification[ <std::time::Instant as Clone>::clone ](instant: &std::time::Instant) -> (r: std::time::Instant)
    ensures
        r == *instant,
;

/// `Instant::now`: reads the monotonic clock. What it returns depends on the
/// time of the call, so nothing is stated of it.
#[verifier::external_body]
pub(crate) fn now() -> std::time::Instant {
    std::time::Instant::now()
}

/// The span from `earlier` to `later`, as `Instant::duration_since` gives it
/// (zero where `earlier` is the later of the two). It depends on the two
/// instants alone.
pub uninterp spec fn span_between(later: std::time::Instant, earlier: std::time::Instant) -> std::time::Duration;

/// `Instant::duration_since`: the span from `earlier` to `later`, named by
/// `span_between`. It saturates at zero rather than panicking.
#[verifier::external_body]
pub(crate) fn duration_between(later: &std::time::Instant, earlier: &std::time::Instant) -> (r:
    std::time::Duration)
    ensures
        r == span_between(*later, *earlier),
{
    later.duration_since(*earlier)
}

/// The span that `Duration::from_secs(secs)` makes: `secs` whole seconds.
pub uninterp spec fn span_of_seconds(secs: u64) -> std::time::Duration;

/// `Duration::from_secs`: the span of `secs` whole seconds, named by
/// `span_of_seconds`.
#[verifier::external_body]
pub(crate) fn seconds(secs: u64) -> (r: std::time::Duration)
    ensures
        r == span_of_seconds(secs),
{
    std::time::Duration::from_secs(secs)
}

/// Whether the span `a` is strictly longer than the span `b`: the result of
/// `Duration > Duration`, which depends on the two spans alone.
pub uninterp spec fn span_exceeds(a: std::time::Duration, b: std::time::Duration) -> bool;

/// `Duration > Duration` (the derived order of std): named by `span_exceeds`.
/// A span is never longer than itself; nothing else is stated, as `Duration`
/// is opaque here.
#[verifier::external_body]
pub(crate) fn longer_than(a: &std::time::Duration, b: &std::time::Duration) -> (r: bool)
    ensures
        r == span_exceeds(*a, *b),
        *a == *b ==> !r,
{
    *a > *b
}

} // verus!
