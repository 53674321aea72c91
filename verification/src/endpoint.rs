//! Checking the address of the remote collector.

use vstd::prelude::*;

verus! {

/// Whether a channel can be made for the address `address`.
pub uninterp spec fn endpoint_well_formed(address: Seq<char>) -> bool;

/// The address of a collector on this machine.
pub open spec fn local_collector() -> Seq<char> {
    "http://localhost:4317"@
}

/// The address that the spans are sent to at the collector at `address`:
/// the traces path of the collector.
pub open spec fn traces_address(address: Seq<char>) -> Seq<char> {
    address + "/v1/traces"@
}

/// Whether the exporter can be set up for the collector at `address`:
/// whether a channel can be made for its traces path.
pub open spec fn endpoint_accepted(address: Seq<char>) -> bool {
    endpoint_well_formed(traces_address(address))
}

/// Decides whether a channel can be made for `address`.
///
/// Trusted: `tonic::transport::Channel::from_shared` parses the address as
/// a URI and fails exactly when it is not one; whether it fails depends on
/// the text alone. The traces path of a collector on this machine,
/// `http://localhost:4317/v1/traces`, is a URI.
#[verifier::external_body]
pub(crate) fn endpoint_parses(address: &str) -> (ok: bool)
    ensures
        ok == endpoint_well_formed(address@),
        address@ == "http://localhost:4317/v1/traces"@ ==> ok,
{
    match tonic::transport::Channel::from_shared(address.to_string()) {
        Ok(_) => true,
        Err(_) => false,
    }
}

/// Decides whether the exporter can be set up for the collector at
/// `address`. It can for a collector on this machine.
pub fn accepts_endpoint(address: &str) -> (ok: bool)
    ensures
        ok == endpoint_accepted(address@),
        address@ == local_collector() ==> ok,
{
    let mut full = String::from_str(address);
    full.append("/v1/traces");
    proof {
        reveal_strlit("http://localhost:4317");
        reveal_strlit("/v1/traces");
        reveal_strlit("http://localhost:4317/v1/traces");
        if address@ == local_collector() {
            assert(full@ =~= "http://localhost:4317/v1/traces"@);
        }
    }
    endpoint_parses(full.as_str())
}

} // verus!
