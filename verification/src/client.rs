//! The client and its execution driver.
//!
//! A client owns one verification engine and the capability set: one
//! transport, an optional signer, an optional storage, and an optional
//! raw private key as the signing fallback.  One user call builds a fresh
//! context tree and drives it: advance the engine, classify the outcome,
//! dispatch the frontier's leaf request through the matching capability,
//! write the outcomes back, and loop.  A stale attempt (`TryAgain`) is
//! absorbed by the per-call retry envelope, which rebuilds a brand-new
//! tree sharing nothing with the discarded one.

use vstd::prelude::*;
use vstd::string::StrSliceExecFns;

use crate::capabilities::Signer;
use crate::capabilities::Storage;
use crate::capabilities::Transport;
use crate::context::ContextTree;
use crate::context::NodeKind;
use crate::context::NodeModel;
use crate::context::NodeState;
use crate::context::OutcomeModel;
use crate::context::TargetOutcome;
use crate::context::frontier_from;
use crate::context::outcome_models;
use crate::context::record_node;
use crate::context::retry_point_from;
use crate::engine::Outcome;
use crate::engine::VerificationEngine;
use crate::errors::Error;
use crate::errors::In3Result;
use crate::hex::hex_str;
use crate::json::config_keys_of;
use crate::json::extract_sign_param;
use crate::json::sign_param_of;
use crate::json::top_level_keys;

verus! {

/// How many stale-data retries one call absorbs before it surfaces
/// `Error::Exhausted`.
pub const DEFAULT_RETRY_LIMIT: u64 = 32;

/// How many engine steps one attempt may take before it surfaces
/// `Error::Exhausted`; a guard against an engine that never terminates.
pub const MAX_ENGINE_STEPS: u64 = 65536;

/// A configuration option this crate recognizes.
pub open spec fn recognized_option(k: Seq<char>) -> bool {
    k == "autoUpdateList"@ || k == "nodes"@
}

/// Every target of the dispatch failed.
pub open spec fn all_failed(o: Seq<OutcomeModel>) -> bool {
    o.len() > 0 && forall|i: int| 0 <= i < o.len() ==> (#[trigger] o[i]) is Failure
}

/// The per-target outcomes of one transport fan-out, in target order.
pub fn to_outcomes(responses: &Vec<Result<String, String>>) -> (r: Vec<TargetOutcome>)
    ensures
        r@.len() == responses@.len(),
        forall|i: int|
            0 <= i < responses@.len() ==> (#[trigger] r@[i])@ == (match responses@[i] {
                Ok(s) => OutcomeModel::Success(s@),
                Err(m) => OutcomeModel::Failure(m@),
            }),
{
    let mut out: Vec<TargetOutcome> = Vec::new();
    let n = responses.len();
    let mut i: usize = 0;
    while i < n
        invariant
            i <= n,
            n == responses@.len(),
            out@.len() == i,
            forall|k: int|
                0 <= k < i ==> (#[trigger] out@[k])@ == (match responses@[k] {
                    Ok(s) => OutcomeModel::Success(s@),
                    Err(m) => OutcomeModel::Failure(m@),
                }),
        decreases n - i,
    {
        match &responses[i] {
            Ok(s) => out.push(TargetOutcome::Success(s.clone())),
            Err(m) => out.push(TargetOutcome::Failure(m.clone())),
        }
        i += 1;
    }
    out
}

/// All-failure propagation: when and only when every target of a
/// dispatch ended in error, the dispatch collapses to a terminal error
/// carrying the first target's error message verbatim.
pub fn collapse_failures(outcomes: &Vec<TargetOutcome>) -> (r: Option<String>)
    ensures
        match r {
            Some(m) => all_failed(outcome_models(outcomes@)) && m@ == outcomes@[0]@.text(),
            None => !all_failed(outcome_models(outcomes@)),
        },
{
    let n = outcomes.len();
    if n == 0 {
        return None;
    }
    let mut i: usize = 0;
    while i < n
        invariant
            i <= n,
            n == outcomes@.len(),
            forall|k: int| 0 <= k < i ==> (#[trigger] outcomes@[k]@) is Failure,
        decreases n - i,
    {
        if !outcomes[i].is_failure() {
            assert(!(outcome_models(outcomes@)[i as int] is Failure));
            return None;
        }
        i += 1;
    }
    Some(outcomes[0].text())
}

/// The index of the frontier of a well-formed tree whose frontier
/// search succeeds.
pub open spec fn the_frontier(t: Seq<NodeModel>) -> int {
    frontier_from(t, 0)->0
}

/// The index of the retry point of a well-formed tree whose retry-point
/// search succeeds.
pub open spec fn the_retry_point(t: Seq<NodeModel>) -> int {
    retry_point_from(t, 0)->0
}

/// The message a sign request's payload carries: the payload's first
/// parameter with its leading two characters (the "0x" prefix) dropped.
/// An internal error — a driver/engine contract mismatch — exactly when
/// the payload carries no such parameter or the parameter is too short
/// to carry a prefix.
pub fn extract_sign_message(payload: &String) -> (r: In3Result<String>)
    ensures
        match r {
            Ok(m) => sign_param_of(payload@) matches Some(p) && p.len() >= 2 && m@ == p.skip(2),
            Err(e) => e is Internal && (sign_param_of(payload@) is None || (sign_param_of(payload@)
                matches Some(p) && p.len() < 2)),
        },
{
    match extract_sign_param(payload.as_str()) {
        None => Err(Error::Internal("malformed sign request payload".to_owned())),
        Some(full) => {
            let n = full.as_str().unicode_len();
            if n < 2 {
                Err(Error::Internal("malformed sign request payload".to_owned()))
            } else {
                let stripped = full.as_str().substring_char(2, n).to_owned();
                assert(full@.subrange(2, n as int) =~= full@.skip(2));
                Ok(stripped)
            }
        },
    }
}

/// The composition root: one engine and the capability set, owned by the
/// instance.  Capability slots are single-writer: replacing one must be
/// serialized externally with in-flight calls.
pub struct Client<E, T, S, St> {
    /// The chain this client was created for.
    pub chain_id: u32,
    /// The external verification engine.
    pub engine: E,
    /// The network transport capability.
    pub transport: T,
    /// The signer capability, when one is installed.
    pub signer: Option<S>,
    /// The persistence capability, handed through to the engine.
    pub storage: Option<St>,
    /// The raw private key: the signing fallback when no signer
    /// capability is installed.
    pub raw_key: Option<Vec<u8>>,
}

impl<E: VerificationEngine<St>, T: Transport, S: Signer, St: Storage> Client<E, T, S, St> {
    /// A fresh client for one chain, with no signer, no storage and no
    /// raw key.
    pub fn new(chain_id: u32, engine: E, transport: T) -> (r: Self)
        ensures
            r.chain_id == chain_id,
            r.engine == engine,
            r.transport == transport,
            r.signer is None,
            r.storage is None,
            r.raw_key is None,
    {
        Client {
            chain_id,
            engine,
            transport,
            signer: None,
            storage: None,
            raw_key: None,
        }
    }

    /// Applies a configuration object.  The text must parse to a JSON
    /// object and every member must be a recognized option, or the call
    /// fails with a configuration error and the engine never sees it;
    /// the engine may still reject a recognized option.
    pub fn configure(&mut self, config: &str) -> (r: In3Result<()>)
        ensures
            r matches Err(e) ==> e is Configuration,
            config_keys_of(config@) is None ==> r is Err,
            r is Ok ==> (config_keys_of(config@) matches Some(ks) && forall|i: int|
                0 <= i < ks.len() ==> recognized_option(#[trigger] ks[i])),
            final(self).chain_id == old(self).chain_id,
            final(self).signer == old(self).signer,
            final(self).storage == old(self).storage,
            final(self).raw_key == old(self).raw_key,
            final(self).transport == old(self).transport,
    {
        let keys = match top_level_keys(config) {
            None => {
                return Err(
                    Error::Configuration("configuration is not a JSON object".to_owned()),
                );
            },
            Some(ks) => ks,
        };
        let auto = "autoUpdateList".to_owned();
        let nodes = "nodes".to_owned();
        let n = keys.len();
        let mut i: usize = 0;
        while i < n
            invariant
                i <= n,
                n == keys@.len(),
                auto@ == "autoUpdateList"@,
                nodes@ == "nodes"@,
                forall|k: int| 0 <= k < i ==> recognized_option(#[trigger] keys.deep_view()[k]),
            decreases n - i,
        {
            if !(keys[i] == auto || keys[i] == nodes) {
                return Err(
                    Error::Configuration("unrecognized configuration option".to_owned()),
                );
            }
            i += 1;
        }
        match self.engine.configure(&config.to_owned()) {
            Ok(()) => Ok(()),
            Err(m) => Err(Error::Configuration(m)),
        }
    }

    /// Replaces the transport capability.
    pub fn set_transport(&mut self, transport: T)
        ensures
            final(self).transport == transport,
            final(self).chain_id == old(self).chain_id,
            final(self).engine == old(self).engine,
            final(self).signer == old(self).signer,
            final(self).storage == old(self).storage,
            final(self).raw_key == old(self).raw_key,
    {
        self.transport = transport;
    }

    /// Installs or replaces the signer capability.
    pub fn set_signer(&mut self, signer: S)
        ensures
            final(self).signer == Some(signer),
            final(self).chain_id == old(self).chain_id,
            final(self).engine == old(self).engine,
            final(self).transport == old(self).transport,
            final(self).storage == old(self).storage,
            final(self).raw_key == old(self).raw_key,
    {
        self.signer = Some(signer);
    }

    /// Installs or replaces the storage capability.  The driver never
    /// touches it; it is handed through to the engine on every advance.
    pub fn set_storage(&mut self, storage: St)
        ensures
            final(self).storage == Some(storage),
            final(self).chain_id == old(self).chain_id,
            final(self).engine == old(self).engine,
            final(self).transport == old(self).transport,
            final(self).signer == old(self).signer,
            final(self).raw_key == old(self).raw_key,
    {
        self.storage = Some(storage);
    }

    /// Configures the raw private key used as the signing fallback when
    /// no signer capability is installed.  The key is hexadecimal; any
    /// other text is rejected as a configuration error.
    pub fn set_pk_signer(&mut self, data: &str) -> (r: In3Result<()>)
        ensures
            match r {
                Ok(()) => crate::hex::hex_decode_spec(data@) matches Some(k)
                    && final(self).raw_key matches Some(v) && v@ == k,
                Err(e) => e is Configuration && crate::hex::hex_decode_spec(data@) is None
                    && final(self).raw_key == old(self).raw_key,
            },
            final(self).chain_id == old(self).chain_id,
            final(self).engine == old(self).engine,
            final(self).transport == old(self).transport,
            final(self).signer == old(self).signer,
            final(self).storage == old(self).storage,
    {
        match crate::hex::hex_decode(data) {
            Some(key) => {
                self.raw_key = Some(key);
                Ok(())
            },
            None => Err(Error::Configuration("private key is not valid hex".to_owned())),
        }
    }

    /// One user call: builds a fresh context tree and drives it to a
    /// final answer.  The internal retry signal never reaches the
    /// caller, and no configuration error can arise during execution.
    pub fn rpc(&mut self, call: &str) -> (r: In3Result<String>)
        ensures
            !(r matches Err(e) && e is TryAgain),
            r matches Err(e) ==> !(e is Configuration),
    {
        self.rpc_with_limit(call, DEFAULT_RETRY_LIMIT)
    }

    /// One user call under an explicit retry ceiling: each stale-data
    /// signal discards the attempt's tree and starts over from a fresh
    /// one; past the ceiling the call surfaces `Error::Exhausted`.
    pub fn rpc_with_limit(&mut self, call: &str, max_attempts: u64) -> (r: In3Result<String>)
        ensures
            !(r matches Err(e) && e is TryAgain),
            r matches Err(e) ==> !(e is Configuration),
            max_attempts == 0 ==> (r matches Err(e) && e is Exhausted),
    {
        let call_string = call.to_owned();
        let mut attempt: u64 = 0;
        while attempt < max_attempts
            invariant
                attempt <= max_attempts,
            decreases max_attempts - attempt,
        {
            attempt += 1;
            // A brand-new tree per attempt: nothing of a discarded
            // attempt's tree is reachable from here.
            let mut tree = self.engine.create(&call_string);
            match self.execute_attempt(&mut tree) {
                Ok(s) => {
                    return Ok(s);
                },
                Err(e) => {
                    if !e.is_try_again() {
                        return Err(e);
                    }
                },
            }
        }
        Err(Error::Exhausted)
    }

    /// Classifies one engine outcome and performs what it demands:
    /// `Resolved` finishes with the payload unaltered and touches
    /// nothing; `Failed` finishes with a terminal verification error
    /// carrying the engine's message and touches nothing; `NeedsRetry`
    /// marks the retry point failed and finishes with the internal retry
    /// signal; `NeedsInput` dispatches the frontier's leaf request,
    /// records its outcomes index-aligned, and continues (`None`) unless
    /// every target failed.  A missing frontier or retry point, or a
    /// malformed tree, is an internal error.
    #[verifier::rlimit(60)]
    pub fn execute_step(&mut self, tree: &mut ContextTree, outcome: Outcome) -> (r: Option<
        In3Result<String>,
    >)
        ensures
            outcome matches Outcome::Resolved(p) ==> (r matches Some(res) && res matches Ok(s)
                && s == p && *final(self) == *old(self) && *final(tree) == *old(tree)),
            outcome matches Outcome::Failed(m) ==> (r matches Some(res) && res matches Err(e)
                && e matches Error::Verification(msg) && msg == m && *final(self) == *old(self)
                && *final(tree) == *old(tree)),
            outcome is NeedsRetry && old(tree).wf() && retry_point_from(old(tree)@, 0) is Some
                ==> (r matches Some(res) && res matches Err(e) && e is TryAgain && *final(self)
                == *old(self) && final(tree)@ == old(tree)@.update(
                the_retry_point(old(tree)@),
                (NodeModel { state: NodeState::Failed, ..old(tree)@[the_retry_point(old(tree)@)] }),
            )),
            outcome is NeedsRetry && !(old(tree).wf() && retry_point_from(old(tree)@, 0) is Some)
                ==> (r matches Some(res) && res matches Err(e) && e is Internal && *final(self)
                == *old(self) && *final(tree) == *old(tree)),
            outcome is NeedsInput && !(old(tree).wf() && frontier_from(old(tree)@, 0) is Some)
                ==> (r matches Some(res) && res matches Err(e) && e is Internal && *final(self)
                == *old(self) && *final(tree) == *old(tree)),
            outcome is NeedsInput && old(tree).wf() && frontier_from(old(tree)@, 0) is Some
                && old(tree)@[the_frontier(old(tree)@)].kind == NodeKind::SignRequest
                ==> (final(self).transport == old(self).transport
                && final(self).raw_key == old(self).raw_key
                && (r is None ==> exists|s: Seq<char>|
                    final(tree)@ == old(tree)@.update(
                        the_frontier(old(tree)@),
                        record_node(
                            old(tree)@[the_frontier(old(tree)@)],
                            seq![OutcomeModel::Success(s)],
                        ),
                    ))
                && (r matches Some(res) ==> (res matches Err(e) && (e is Signing
                    || e is Internal) && *final(tree) == *old(tree)))),
            outcome is NeedsInput && old(tree).wf() && frontier_from(old(tree)@, 0) is Some
                && old(tree)@[the_frontier(old(tree)@)].kind == NodeKind::RpcRequest
                ==> exists|o: Seq<OutcomeModel>|
                    o.len() == old(tree)@[the_frontier(old(tree)@)].targets.len() && final(tree)@
                        == old(tree)@.update(
                        the_frontier(old(tree)@),
                        record_node(old(tree)@[the_frontier(old(tree)@)], o),
                    ) && ((r is None) <==> !all_failed(o)) && (r matches Some(res) ==> (res
                        matches Err(e) && e matches Error::Transport(m) && m@ == o[0].text())),
            r matches Some(res) ==> (res matches Err(e) ==> (e is TryAgain || e is Internal
                || e is Signing || e is Transport || e is Verification)),
            r matches Some(res) ==> (res matches Err(e) ==> (e is TryAgain ==> exists|j: int|
                0 <= j < final(tree)@.len() && final(tree)@[j].state == NodeState::Failed)),
    {
        match outcome {
            Outcome::Resolved(payload) => Some(Ok(payload)),
            Outcome::Failed(message) => Some(Err(Error::Verification(message))),
            Outcome::NeedsRetry => {
                if !tree.check_wf() {
                    return Some(
                        Err(Error::Internal("engine produced a malformed context tree".to_owned())),
                    );
                }
                match tree.find_retry_point() {
                    None => Some(
                        Err(Error::Internal("could not find the last waiting context".to_owned())),
                    ),
                    Some(i) => {
                        tree.mark_failed(i);
                        assert(tree@[i as int].state == NodeState::Failed);
                        Some(Err(Error::TryAgain))
                    },
                }
            },
            Outcome::NeedsInput => {
                if !tree.check_wf() {
                    return Some(
                        Err(Error::Internal("engine produced a malformed context tree".to_owned())),
                    );
                }
                match tree.find_frontier() {
                    None => Some(
                        Err(Error::Internal("could not find the last waiting context".to_owned())),
                    ),
                    Some(i) => {
                        match tree.nodes[i].kind {
                            NodeKind::SignRequest => {
                                let signature = match self.dispatch_sign(&tree.nodes[i].payload) {
                                    Ok(s) => s,
                                    Err(e) => {
                                        return Some(Err(e));
                                    },
                                };
                                let rendered = crate::hex::hex_encode(&signature);
                                let outcomes = vec![TargetOutcome::Success(rendered)];
                                tree.record_results(i, &outcomes);
                                proof {
                                    assert(outcome_models(outcomes@) =~= seq![
                                        OutcomeModel::Success(hex_str(signature@)),
                                    ]);
                                    assert(tree@ =~= old(tree)@.update(
                                        i as int,
                                        record_node(
                                            old(tree)@[i as int],
                                            seq![OutcomeModel::Success(hex_str(signature@))],
                                        ),
                                    ));
                                }
                                None
                            },
                            NodeKind::RpcRequest => {
                                let responses = self.transport.fetch(
                                    &tree.nodes[i].payload,
                                    &tree.nodes[i].targets,
                                );
                                let outcomes = to_outcomes(&responses);
                                tree.record_results(i, &outcomes);
                                proof {
                                    assert(outcome_models(outcomes@).len() == old(
                                        tree,
                                    )@[i as int].targets.len());
                                    assert(tree@ =~= old(tree)@.update(
                                        i as int,
                                        record_node(
                                            old(tree)@[i as int],
                                            outcome_models(outcomes@),
                                        ),
                                    ));
                                }
                                match collapse_failures(&outcomes) {
                                    Some(first_error) => {
                                        assert(outcome_models(outcomes@)[0] == outcomes@[0]@);
                                        Some(Err(Error::Transport(first_error)))
                                    },
                                    None => None,
                                }
                            },
                        }
                    },
                }
            },
        }
    }

    /// Drives one attempt's tree to a result: advance the engine,
    /// classify and dispatch through [`Self::execute_step`], loop.
    /// Returns `Error::TryAgain` — after marking the retry point failed —
    /// when the tree went stale and the caller must rebuild from
    /// scratch; a configuration error can never arise here.
    pub fn execute_attempt(&mut self, tree: &mut ContextTree) -> (r: In3Result<String>)
        ensures
            r matches Err(e) ==> !(e is Configuration),
            (r matches Err(e) && e is TryAgain) ==> exists|j: int|
                0 <= j < final(tree)@.len() && final(tree)@[j].state == NodeState::Failed,
    {
        let mut steps: u64 = 0;
        while steps < MAX_ENGINE_STEPS
            invariant
                steps <= MAX_ENGINE_STEPS,
            decreases MAX_ENGINE_STEPS - steps,
        {
            steps += 1;
            let outcome = self.engine.advance(tree, &mut self.storage);
            match self.execute_step(tree, outcome) {
                Some(res) => {
                    return res;
                },
                None => {},
            }
        }
        Err(Error::Exhausted)
    }

    /// Dispatches one sign request: extracts the message from the
    /// payload, obtains the signature from the signer capability or from
    /// the raw-key path, and reports a signing error when neither is
    /// configured — in that case no capability and no network is
    /// touched.
    pub fn dispatch_sign(&mut self, payload: &String) -> (r: Result<Vec<u8>, Error>)
        ensures
            r matches Err(e) ==> (e is Signing || e is Internal),
            old(self).signer is None && old(self).raw_key is None ==> (r matches Err(e)
                && e is Signing),
            !(old(self).signer is None && old(self).raw_key is None) && sign_param_of(payload@)
                is None ==> (r matches Err(e) && e is Internal),
            !(old(self).signer is None && old(self).raw_key is None) && (sign_param_of(payload@)
                matches Some(p) && p.len() < 2) ==> (r matches Err(e) && e is Internal),
            old(self).signer is None && old(self).raw_key is Some && (sign_param_of(payload@)
                matches Some(p) && p.len() >= 2 && crate::hex::hex_decode_spec(p.skip(2)) is None)
                ==> (r matches Err(e) && e is Signing),
            final(self).chain_id == old(self).chain_id,
            final(self).transport == old(self).transport,
            final(self).storage == old(self).storage,
            final(self).raw_key == old(self).raw_key,
    {
        if self.signer.is_none() && self.raw_key.is_none() {
            return Err(
                Error::Signing("no signer capability and no private key configured".to_owned()),
            );
        }
        let message = match extract_sign_message(payload) {
            Err(e) => {
                return Err(e);
            },
            Ok(m) => m,
        };
        match &mut self.signer {
            Some(s) => match s.sign(&message) {
                Ok(signature) => Ok(signature),
                Err(m) => Err(Error::Signing(m)),
            },
            None => match &self.raw_key {
                Some(key) => match crate::hex::hex_decode(message.as_str()) {
                    None => Err(
                        Error::Signing("sign request message is not valid hex".to_owned()),
                    ),
                    Some(digest) => match self.engine.sign_with_key(key, &digest) {
                        Ok(signature) => Ok(signature),
                        Err(m) => Err(Error::Signing(m)),
                    },
                },
                None => Err(
                    Error::Signing("no signer capability and no private key configured".to_owned()),
                ),
            },
        }
    }
}

} // verus!
