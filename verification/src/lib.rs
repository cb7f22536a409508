//! Request-orchestration layer of a blockchain light client.
//!
//! The crate drives an external verification engine that decides, for a
//! single logical RPC call, what auxiliary data and signatures are still
//! required before the call's result can be trusted.  The driver walks the
//! engine's context tree, locates the unresolved leaf request that must be
//! satisfied next, dispatches it to a pluggable capability (network
//! transport or message signer), writes the capability's result back into
//! the tree, and loops until the tree resolves to a final answer or a
//! terminal error.

pub mod api;
pub mod capabilities;
pub mod chain;
pub mod client;
pub mod context;
pub mod engine;
pub mod errors;
pub mod hex;
pub mod json;

pub use api::EthApi;
pub use api::RpcRequest;
pub use api::U256;
pub use capabilities::Signer;
pub use capabilities::Storage;
pub use capabilities::Transport;
pub use client::Client;
pub use context::ContextNode;
pub use context::ContextTree;
pub use context::NodeKind;
pub use context::NodeState;
pub use context::TargetOutcome;
pub use engine::Outcome;
pub use engine::VerificationEngine;
pub use errors::Error;
pub use errors::In3Result;
