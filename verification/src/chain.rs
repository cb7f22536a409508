//! Identifiers of the chains a client can be created for.

use vstd::prelude::*;

verus! {

/// A chain identifier.
pub type ChainId = u32;

pub const MULTICHAIN: u32 = 0x0;

pub const MAINNET: u32 = 0x01;

pub const KOVAN: u32 = 0x2a;

pub const TOBALABA: u32 = 0x44d;

pub const GOERLI: u32 = 0x5;

pub const EVAN: u32 = 0x4b1;

pub const IPFS: u32 = 0x7d0;

pub const BTC: u32 = 0x99;

pub const LOCAL: u32 = 0xffff;

} // verus!
