//! The monotonic clock of the standard library, as the handler uses it.
//!
//! Nothing here is proved. A reading of the clock depends on the moment of the
//! call, so no contract below says anything of the value that comes back:
//! verified callers must be correct for every reading.

use vstd::prelude::*;

verus! {

/// A point on the monotonic clock. Opaque: nothing is known of its value.
#[verifier::external_type_specification]
#[verifier::external_body]
pub struct ExInstant(std::time::Instant);

/// `Instant::now` returns the clock's reading at the moment of the call.
/// No claim is made about it.
pub assume_specification[ std::time::Instant::now ]() -> (start: std::time::Instant);

/// `Instant::elapsed` returns the time that has passed since the reading was
/// taken, and a span of zero where the clock is found behind the reading.
/// No claim is made about its length.
pub assume_specification[ std::time::Instant::elapsed ](start: &std::time::Instant) -> (elapsed:
    std::time::Duration);

/// `Duration::as_millis` returns the whole milliseconds that the span holds.
/// The span itself is opaque, so no claim is made about the number.
pub assume_specification[ std::time::Duration::as_millis ](span: &std::time::Duration) -> (millis:
    u128);

} // verus!
