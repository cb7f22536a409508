//! The pluggable capabilities the driver depends on.
//!
//! Capabilities are externally supplied; the driver is verified against
//! the contracts stated here and nothing else.  Replacing a capability
//! must be serialized externally with in-flight calls.

use vstd::prelude::*;

verus! {

/// Network transport.  One payload is dispatched to every target; the
/// call returns only once an outcome — success payload or error message —
/// is known for each target, index-aligned with `targets`.  Partial
/// completion is not a supported state.
pub trait Transport {
    /// Sends `payload` to every endpoint of `targets` and reports one
    /// outcome per target, in target order.
    fn fetch(&mut self, payload: &String, targets: &Vec<String>) -> (r: Vec<Result<String, String>>)
        ensures
            r@.len() == targets@.len(),
    ;
}

/// Message signer.  A single call serves one sign request.
pub trait Signer {
    /// Produces the signature bytes for `message` (a hex-encoded digest
    /// without a `0x` prefix), or an error message.
    fn sign(&mut self, message: &String) -> (r: Result<Vec<u8>, String>);
}

/// Key/value persistence.  The driver itself never reads or writes it;
/// it only hands the capability through to the verification engine.
pub trait Storage {
    /// The stored bytes for `key`, when present.
    fn get(&mut self, key: &String) -> (r: Option<Vec<u8>>);

    /// Stores `value` under `key`.
    fn set(&mut self, key: &String, value: &Vec<u8>);

    /// Removes everything stored.
    fn clear(&mut self);
}

} // verus!
