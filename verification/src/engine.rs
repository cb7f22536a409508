//! The verification engine: the external black box that builds and
//! advances the context tree and ultimately certifies a call's result.
//!
//! The driver consumes the engine through this interface alone and
//! assumes nothing about its behaviour: after every step it revalidates
//! the tree and reacts only to the outcome it is handed.

use vstd::prelude::*;

use crate::capabilities::Storage;
use crate::context::ContextTree;

verus! {

/// What one single-step advance of the engine reports.
pub enum Outcome {
    /// The whole tree resolved; carries the final payload.
    Resolved(String),
    /// The engine rejected the result as untrustworthy; terminal.
    Failed(String),
    /// Data this attempt relied on is stale; the tree must be discarded
    /// and a fresh attempt started.
    NeedsRetry,
    /// Some node still waits for a capability response; the driver must
    /// locate the frontier and dispatch its leaf request.
    NeedsInput,
}

/// The engine interface.  `Storage` is handed through on every advance:
/// the engine reads and writes persistence through it, the driver never
/// does.
pub trait VerificationEngine<St: Storage> {
    /// Applies a configuration object to the engine; an error message
    /// rejects it.
    fn configure(&mut self, config: &String) -> (r: Result<(), String>);

    /// Builds a fresh context tree rooted at `call`.
    fn create(&mut self, call: &String) -> (r: ContextTree);

    /// One authoritative step: advances the tree and classifies it.
    fn advance(&mut self, tree: &mut ContextTree, storage: &mut Option<St>) -> (r: Outcome);

    /// The raw-key signing path: signs `message` with the configured
    /// private key when no signer capability is installed.
    fn sign_with_key(&mut self, key: &Vec<u8>, message: &Vec<u8>) -> (r: Result<Vec<u8>, String>);
}

} // verus!
