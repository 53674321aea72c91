//! Fresh identifiers for traces and spans.

use vstd::prelude::*;

verus! {

/// Draws a trace identifier.
///
/// Trusted: `new_trace_id` of `opentelemetry::sdk::trace::RandomIdGenerator`
/// returns sixteen bytes from the thread's random number generator. Nothing
/// is claimed of them: any value can come back, zero included.
#[verifier::external_body]
pub(crate) fn random_trace_id() -> (id: u128) {
    let generator = opentelemetry::sdk::trace::RandomIdGenerator::default();
    let id = opentelemetry::sdk::trace::IdGenerator::new_trace_id(&generator);
    u128::from_be_bytes(id.to_bytes())
}

/// Draws a span identifier.
///
/// Trusted: `new_span_id` of `opentelemetry::sdk::trace::RandomIdGenerator`
/// returns eight bytes from the thread's random number generator. Nothing
/// is claimed of them.
#[verifier::external_body]
pub(crate) fn random_span_id() -> (id: u64) {
    let generator = opentelemetry::sdk::trace::RandomIdGenerator::default();
    let id = opentelemetry::sdk::trace::IdGenerator::new_span_id(&generator);
    u64::from_be_bytes(id.to_bytes())
}

} // verus!
