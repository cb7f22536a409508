//! The user-facing API: JSON-RPC requests over a client, and the
//! quantity values their responses carry.

use vstd::prelude::*;
use vstd::string::StrSliceExecFns;
use vstd::string::StringExecFns;

use crate::capabilities::Signer;
use crate::capabilities::Storage;
use crate::capabilities::Transport;
use crate::client::Client;
use crate::client::recognized_option;
use crate::engine::VerificationEngine;
use crate::errors::Error;
use crate::errors::In3Result;
use crate::hex::hex_bytes;
use crate::hex::hex_decode;
use crate::hex::hex_decode_spec;
use crate::hex::pad_left_zeros;
use crate::hex::strip_hex_prefix;
use crate::hex::strip_hex_prefixes;
use crate::hex::zero_padded;
use crate::json::config_keys_of;
use crate::json::extract_first_result;
use crate::json::rpc_result_of;

verus! {

/// A 256-bit unsigned quantity as 32 big-endian bytes.
#[derive(Debug)]
pub struct U256(pub Vec<u8>);

/// The big-endian value of a byte sequence.
pub open spec fn be_val(s: Seq<u8>) -> nat
    decreases s.len(),
{
    if s.len() == 0 {
        0
    } else {
        (256 * be_val(s.drop_last()) + s.last()) as nat
    }
}

/// Extending a big-endian prefix by one byte multiplies its value by 256
/// and adds the byte.
proof fn lemma_be_snoc(s: Seq<u8>, k: int)
    requires
        0 <= k < s.len(),
    ensures
        be_val(s.subrange(0, k + 1)) == 256 * be_val(s.subrange(0, k)) + s[k],
{
    assert(s.subrange(0, k + 1).drop_last() =~= s.subrange(0, k));
    assert(s.subrange(0, k + 1).last() == s[k]);
}

/// The 32 bytes a quantity string denotes: every leading "0x" stripped,
/// the rest left-padded with '0' to 64 hexadecimal digits and decoded;
/// nothing when the rest is longer than 64 digits or not hexadecimal.
pub open spec fn quantity_bytes(s: Seq<char>) -> Option<Seq<u8>> {
    let t = strip_hex_prefixes(s);
    if t.len() <= 64 {
        hex_decode_spec(zero_padded(t, 64))
    } else {
        None
    }
}

impl U256 {
    /// A quantity holds exactly 32 bytes.
    pub open spec fn wf(&self) -> bool {
        self.0@.len() == 32
    }

    /// The value as a `u64`, when the 24 high bytes are zero.
    pub fn as_u64(&self) -> (r: Option<u64>)
        requires
            self.wf(),
        ensures
            match r {
                Some(v) => (forall|i: int| 0 <= i < 24 ==> self.0@[i] == 0) && v as nat == be_val(
                    self.0@.skip(24),
                ),
                None => exists|i: int| 0 <= i < 24 && self.0@[i] != 0,
            },
    {
        let mut i: usize = 0;
        while i < 24
            invariant
                i <= 24,
                self.wf(),
                forall|k: int| 0 <= k < i ==> self.0@[k] == 0,
            decreases 24 - i,
        {
            if self.0[i] != 0 {
                return None;
            }
            i += 1;
        }
        let ghost tail = self.0@.skip(24);
        assert(tail.len() == 8);
        assert(forall|k: int| 0 <= k < 8 ==> tail[k] == self.0@[24 + k]);
        let mut v: u64 = self.0[24] as u64;
        proof {
            lemma_be_snoc(tail, 0);
            assert(tail.subrange(0, 0) =~= Seq::<u8>::empty());
        }
        assert(v as nat == be_val(tail.subrange(0, 1)) && v <= 0xff);
        proof {
            lemma_be_snoc(tail, 1);
        }
        v = v * 256 + (self.0[25] as u64);
        assert(v as nat == be_val(tail.subrange(0, 2)) && v <= 0xffff);
        proof {
            lemma_be_snoc(tail, 2);
        }
        v = v * 256 + (self.0[26] as u64);
        assert(v as nat == be_val(tail.subrange(0, 3)) && v <= 0xff_ffff);
        proof {
            lemma_be_snoc(tail, 3);
        }
        v = v * 256 + (self.0[27] as u64);
        assert(v as nat == be_val(tail.subrange(0, 4)) && v <= 0xffff_ffff);
        proof {
            lemma_be_snoc(tail, 4);
        }
        v = v * 256 + (self.0[28] as u64);
        assert(v as nat == be_val(tail.subrange(0, 5)) && v <= 0xff_ffff_ffff);
        proof {
            lemma_be_snoc(tail, 5);
        }
        v = v * 256 + (self.0[29] as u64);
        assert(v as nat == be_val(tail.subrange(0, 6)) && v <= 0xffff_ffff_ffff);
        proof {
            lemma_be_snoc(tail, 6);
        }
        v = v * 256 + (self.0[30] as u64);
        assert(v as nat == be_val(tail.subrange(0, 7)) && v <= 0xff_ffff_ffff_ffff);
        proof {
            lemma_be_snoc(tail, 7);
        }
        v = v * 256 + (self.0[31] as u64);
        assert(v as nat == be_val(tail.subrange(0, 8)));
        assert(tail.subrange(0, 8) =~= tail);
        Some(v)
    }
}

/// Parses a JSON-RPC quantity string into its 32-byte value; an error
/// exactly when the string does not denote one.
pub fn parse_quantity(s: &str) -> (r: In3Result<U256>)
    ensures
        match r {
            Ok(u) => u.wf() && quantity_bytes(s@) == Some(u.0@),
            Err(e) => quantity_bytes(s@) is None && e is Verification,
        },
{
    let stripped = strip_hex_prefix(s);
    let n = stripped.as_str().unicode_len();
    if n > 64 {
        return Err(Error::Verification("quantity has more than 64 hexadecimal digits".to_owned()));
    }
    let padded = pad_left_zeros(stripped.as_str(), 64);
    assert(padded@.len() == 64);
    match hex_decode(padded.as_str()) {
        None => Err(Error::Verification("quantity is not valid hexadecimal".to_owned())),
        Some(bytes) => {
            assert(bytes@ == hex_bytes(padded@));
            Ok(U256(bytes))
        },
    }
}

/// Parses one response of `eth_blockNumber`: the quantity carried at
/// `[0]["result"]` of the response text, as a 32-byte value; an error
/// exactly when the response carries no result there or the result does
/// not denote a quantity.
pub fn parse_block_number_response(response: &str) -> (r: In3Result<U256>)
    ensures
        match r {
            Ok(u) => u.wf() && (rpc_result_of(response@) matches Some(q) && quantity_bytes(q)
                == Some(u.0@)),
            Err(e) => e is Verification && (rpc_result_of(response@) is None || (rpc_result_of(
                response@,
            ) matches Some(q) && quantity_bytes(q) is None)),
        },
{
    match extract_first_result(response) {
        None => Err(Error::Verification("response carries no result".to_owned())),
        Some(quantity) => parse_quantity(quantity.as_str()),
    }
}

/// Parses one response of `eth_getBalance`: the string carried at
/// `[0]["result"]` of the response text; an error exactly when the
/// response carries no result there.
pub fn parse_balance_response(response: &str) -> (r: In3Result<String>)
    ensures
        match r {
            Ok(b) => rpc_result_of(response@) == Some(b@),
            Err(e) => e is Verification && rpc_result_of(response@) is None,
        },
{
    match extract_first_result(response) {
        None => Err(Error::Verification("response carries no result".to_owned())),
        Some(balance) => Ok(balance),
    }
}

/// One JSON-RPC request: a method name and a rendered parameter array.
pub struct RpcRequest {
    pub method: String,
    pub params: String,
}

impl RpcRequest {
    /// The rendered call text for a method and a parameter array.
    pub open spec fn spec_json(method: Seq<char>, params: Seq<char>) -> Seq<char> {
        "{\"method\":\""@ + method + "\",\"params\":"@ + params + "}"@
    }

    /// Renders the request as JSON-RPC call text.  The method must be a
    /// plain method name; it is not escaped.
    pub fn to_json(&self) -> (r: String)
        ensures
            r@ == Self::spec_json(self.method@, self.params@),
    {
        let mut s = String::new();
        s.append("{\"method\":\"");
        s.append(self.method.as_str());
        s.append("\",\"params\":");
        s.append(self.params.as_str());
        s.append("}");
        assert(s@ =~= Self::spec_json(self.method@, self.params@));
        s
    }
}

/// The Ethereum API over one client.
pub struct EthApi<E, T, S, St> {
    pub client: Client<E, T, S, St>,
}

impl<E: VerificationEngine<St>, T: Transport, S: Signer, St: Storage> EthApi<E, T, S, St> {
    /// A fresh mainnet API over the given engine and transport, with the
    /// configuration attempted best-effort: a rejected configuration
    /// keeps the defaults.  Use [`Self::new_configured`] where a
    /// rejected configuration must surface as the typed error the error
    /// policy calls for.
    pub fn new(engine: E, transport: T, config_str: &str) -> (r: Self)
        ensures
            r.client.chain_id == crate::chain::MAINNET,
            r.client.signer is None,
            r.client.storage is None,
            r.client.raw_key is None,
    {
        let mut client = Client::new(crate::chain::MAINNET, engine, transport);
        let _ = client.configure(config_str);
        EthApi { client }
    }

    /// A fresh mainnet API over the given engine and transport; the
    /// configuration must be accepted, or the constructor surfaces the
    /// configuration error instead of dropping it.
    pub fn new_configured(engine: E, transport: T, config_str: &str) -> (r: In3Result<Self>)
        ensures
            r matches Ok(api) ==> (api.client.chain_id == crate::chain::MAINNET
                && api.client.signer is None && api.client.storage is None
                && api.client.raw_key is None && (config_keys_of(config_str@) matches Some(ks)
                && forall|i: int| 0 <= i < ks.len() ==> recognized_option(#[trigger] ks[i]))),
            r matches Err(e) ==> e is Configuration,
            config_keys_of(config_str@) is None ==> r is Err,
    {
        let mut client = Client::new(crate::chain::MAINNET, engine, transport);
        match client.configure(config_str) {
            Ok(()) => Ok(EthApi { client }),
            Err(e) => Err(e),
        }
    }

    /// Dispatches one rendered call.
    fn send(&mut self, params: &str) -> (r: In3Result<String>)
        ensures
            !(r matches Err(e) && e is TryAgain),
    {
        self.client.rpc(params)
    }

    /// The current block number: calls `eth_blockNumber` and parses the
    /// quantity carried at `[0]["result"]` of the response.
    pub fn block_number(&mut self) -> (r: In3Result<U256>)
        ensures
            r matches Ok(u) ==> u.wf(),
            !(r matches Err(e) && e is TryAgain),
    {
        let request = RpcRequest { method: "eth_blockNumber".to_owned(), params: "[]".to_owned() };
        let call = request.to_json();
        let response = match self.send(call.as_str()) {
            Ok(s) => s,
            Err(e) => {
                return Err(e);
            },
        };
        parse_block_number_response(response.as_str())
    }

    /// The balance of an address at the latest block: calls
    /// `eth_getBalance` and returns the string carried at
    /// `[0]["result"]` of the response.
    #[allow(non_snake_case)]
    pub fn getBalance(&mut self, address: String) -> (r: In3Result<String>)
        ensures
            !(r matches Err(e) && e is TryAgain),
    {
        let mut params = String::new();
        params.append("[\"");
        params.append(address.as_str());
        params.append("\",\"latest\"]");
        let request = RpcRequest { method: "eth_getBalance".to_owned(), params };
        let call = request.to_json();
        let response = match self.send(call.as_str()) {
            Ok(s) => s,
            Err(e) => {
                return Err(e);
            },
        };
        parse_balance_response(response.as_str())
    }
}

} // verus!
