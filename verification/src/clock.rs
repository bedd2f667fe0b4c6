use vstd::prelude::*;

verus! {

#[verifier::external_type_specification]
#[verifier::external_body]
pub struct ExInstant(std::time::Instant);

/// Relies on `std::time::Instant::now`: a reading of the monotonic clock,
/// kept as the fixed origin from which elapsed milliseconds are measured.
/// Nothing is promised of the reading itself.
#[verifier::external_body]
pub(crate) fn origin_now() -> (r: std::time::Instant) {
    std::time::Instant::now()
}

/// Relies on `std::time::Instant::elapsed` and `Duration::as_millis`: the whole
/// milliseconds of monotonic time since `origin`. The call never panics and the
/// monotonic clock never goes backwards, but the value depends on when the call
/// is made, so nothing is promised of it.
#[verifier::external_body]
pub(crate) fn millis_since(origin: &std::time::Instant) -> (r: u128) {
    origin.elapsed().as_millis()
}

} // verus!
