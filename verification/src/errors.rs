//! The error taxonomy of the driver.
//!
//! `TryAgain` is an internal signal: it means "discard this attempt's tree
//! and restart from a fresh one" and is fully absorbed by the per-call
//! retry envelope; it never reaches a caller of [`crate::client::Client::rpc`].
//! Every other kind propagates unchanged to the caller as a typed failure
//! carrying a human-readable message.

use vstd::prelude::*;

verus! {

/// A typed failure of one logical call.
#[derive(Debug)]
pub enum Error {
    /// Internal signal: the data this attempt relied on is stale; the
    /// per-call retry envelope rebuilds a fresh tree and starts over.
    TryAgain,
    /// Every network target of a request failed; carries the first
    /// target's error message verbatim.
    Transport(String),
    /// The verification engine rejected the result as untrustworthy.
    Verification(String),
    /// The signer capability failed, or none was configured when a
    /// signature was required.
    Signing(String),
    /// A driver/engine contract mismatch, such as a missing frontier;
    /// a defect, not a transient condition.
    Internal(String),
    /// An invalid or unrecognized configuration option.
    Configuration(String),
    /// A retry or step ceiling was exceeded.
    Exhausted,
}

impl Error {
    /// True exactly for the internal retry signal.
    pub fn is_try_again(&self) -> (r: bool)
        ensures
            r == (self is TryAgain),
    {
        matches!(self, Error::TryAgain)
    }

    /// True exactly for the transport failure kind.
    pub fn is_transport(&self) -> (r: bool)
        ensures
            r == (self is Transport),
    {
        matches!(self, Error::Transport(_))
    }

    /// True exactly for the terminal verification failure kind.
    pub fn is_verification(&self) -> (r: bool)
        ensures
            r == (self is Verification),
    {
        matches!(self, Error::Verification(_))
    }

    /// True exactly for the signing failure kind.
    pub fn is_signing(&self) -> (r: bool)
        ensures
            r == (self is Signing),
    {
        matches!(self, Error::Signing(_))
    }

    /// True exactly for the internal-consistency failure kind.
    pub fn is_internal(&self) -> (r: bool)
        ensures
            r == (self is Internal),
    {
        matches!(self, Error::Internal(_))
    }

    /// True exactly for the configuration failure kind.
    pub fn is_configuration(&self) -> (r: bool)
        ensures
            r == (self is Configuration),
    {
        matches!(self, Error::Configuration(_))
    }

    /// True exactly for the exceeded-ceiling kind.
    pub fn is_exhausted(&self) -> (r: bool)
        ensures
            r == (self is Exhausted),
    {
        matches!(self, Error::Exhausted)
    }

    /// The spec-level message carried by this error; empty for the kinds
    /// that carry none.
    pub open spec fn spec_message(&self) -> Seq<char> {
        match self {
            Error::TryAgain => Seq::<char>::empty(),
            Error::Transport(m) => m@,
            Error::Verification(m) => m@,
            Error::Signing(m) => m@,
            Error::Internal(m) => m@,
            Error::Configuration(m) => m@,
            Error::Exhausted => Seq::<char>::empty(),
        }
    }

    /// The human-readable message carried by this error.
    pub fn message(&self) -> (r: String)
        ensures
            r@ == self.spec_message(),
    {
        match self {
            Error::TryAgain => String::new(),
            Error::Transport(m) => m.clone(),
            Error::Verification(m) => m.clone(),
            Error::Signing(m) => m.clone(),
            Error::Internal(m) => m.clone(),
            Error::Configuration(m) => m.clone(),
            Error::Exhausted => String::new(),
        }
    }
}

/// The result of one operation of this crate.
pub type In3Result<T> = Result<T, Error>;

} // verus!
