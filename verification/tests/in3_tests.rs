use in3::api::EthApi;
use in3::api::RpcRequest;
use in3::api::parse_balance_response;
use in3::api::parse_block_number_response;
use in3::api::parse_quantity;
use in3::capabilities::Signer;
use in3::capabilities::Storage;
use in3::capabilities::Transport;
use in3::chain;
use in3::client::Client;
use in3::client::collapse_failures;
use in3::client::extract_sign_message;
use in3::client::to_outcomes;
use in3::context::ContextNode;
use in3::context::ContextTree;
use in3::context::NodeKind;
use in3::context::NodeState;
use in3::context::TargetOutcome;
use in3::engine::Outcome;
use in3::engine::VerificationEngine;
use in3::errors::Error;
use in3::hex::hex_decode;
use in3::hex::hex_encode;
use in3::hex::pad_left_zeros;
use in3::hex::strip_hex_prefix;

// ---------------------------------------------------------------- helpers

fn mk_node(kind: NodeKind, state: NodeState, payload: &str, targets: Vec<&str>) -> ContextNode {
    let n = targets.len();
    ContextNode {
        kind,
        state,
        payload: payload.to_string(),
        targets: targets.into_iter().map(|t| t.to_string()).collect(),
        raw_response: None,
        results: (0..n).map(|_| None).collect(),
        required: None,
    }
}

fn render_outcome(o: &Option<TargetOutcome>) -> String {
    match o {
        None => "-".to_string(),
        Some(TargetOutcome::Success(s)) => format!("ok:{}", s),
        Some(TargetOutcome::Failure(m)) => format!("err:{}", m),
    }
}

fn snapshot(t: &ContextTree) -> Vec<String> {
    t.nodes
        .iter()
        .map(|n| {
            format!(
                "{:?}|{:?}|{}|{:?}|{}",
                n.state,
                n.kind,
                n.payload,
                n.raw_response,
                n.results.iter().map(|o| render_outcome(o)).collect::<Vec<_>>().join(","),
            )
        })
        .collect()
}

// ------------------------------------------------------- mock capabilities

struct NoSigner;

impl Signer for NoSigner {
    fn sign(&mut self, _message: &String) -> Result<Vec<u8>, String> {
        Err("no signer".to_string())
    }
}

struct FixedSigner {
    signature: Vec<u8>,
    log: Vec<String>,
}

impl Signer for FixedSigner {
    fn sign(&mut self, message: &String) -> Result<Vec<u8>, String> {
        self.log.push(message.clone());
        Ok(self.signature.clone())
    }
}

struct NoStorage;

impl Storage for NoStorage {
    fn get(&mut self, _key: &String) -> Option<Vec<u8>> {
        None
    }
    fn set(&mut self, _key: &String, _value: &Vec<u8>) {}
    fn clear(&mut self) {}
}

/// Answers each target from a fixed script, and records every fan-out.
struct ScriptTransport {
    responses: Vec<Result<String, String>>,
    calls: usize,
    seen_payloads: Vec<String>,
}

impl ScriptTransport {
    fn new(responses: Vec<Result<String, String>>) -> ScriptTransport {
        ScriptTransport { responses, calls: 0, seen_payloads: Vec::new() }
    }
}

impl Transport for ScriptTransport {
    fn fetch(&mut self, payload: &String, targets: &Vec<String>) -> Vec<Result<String, String>> {
        self.calls += 1;
        self.seen_payloads.push(payload.clone());
        (0..targets.len())
            .map(|i| self.responses.get(i).cloned().unwrap_or(Err("missing".to_string())))
            .collect()
    }
}

// ------------------------------------------------------------ mock engines

/// Resolves immediately: no dependency, no capability dispatch.
struct ResolveEngine {
    payload: String,
    creates: usize,
}

impl VerificationEngine<NoStorage> for ResolveEngine {
    fn configure(&mut self, _config: &String) -> Result<(), String> {
        Ok(())
    }
    fn create(&mut self, _call: &String) -> ContextTree {
        self.creates += 1;
        ContextTree { nodes: vec![mk_node(NodeKind::RpcRequest, NodeState::New, "{}", vec![])] }
    }
    fn advance(&mut self, _tree: &mut ContextTree, _storage: &mut Option<NoStorage>) -> Outcome {
        Outcome::Resolved(self.payload.clone())
    }
    fn sign_with_key(&mut self, _key: &Vec<u8>, _message: &Vec<u8>) -> Result<Vec<u8>, String> {
        Err("unsupported".to_string())
    }
}

/// One RPC frontier; resolves once a response is recorded, remembering
/// what the driver wrote into the tree.
struct RpcEngine {
    targets: Vec<String>,
    resolve: String,
    observed: Vec<Option<TargetOutcome>>,
}

impl VerificationEngine<NoStorage> for RpcEngine {
    fn configure(&mut self, _config: &String) -> Result<(), String> {
        Ok(())
    }
    fn create(&mut self, _call: &String) -> ContextTree {
        let targets: Vec<&str> = self.targets.iter().map(|t| t.as_str()).collect();
        ContextTree {
            nodes: vec![mk_node(
                NodeKind::RpcRequest,
                NodeState::WaitingForResponse,
                "{\"method\":\"x\"}",
                targets,
            )],
        }
    }
    fn advance(&mut self, tree: &mut ContextTree, _storage: &mut Option<NoStorage>) -> Outcome {
        if tree.nodes[0].raw_response.is_none() {
            Outcome::NeedsInput
        } else {
            self.observed = tree.nodes[0].results.clone();
            Outcome::Resolved(self.resolve.clone())
        }
    }
    fn sign_with_key(&mut self, _key: &Vec<u8>, _message: &Vec<u8>) -> Result<Vec<u8>, String> {
        Err("unsupported".to_string())
    }
}

/// One sign frontier; resolves once the signature is recorded.
struct SignEngine {
    payload: String,
    resolve: String,
    observed: Vec<Option<TargetOutcome>>,
    key_log: Vec<(Vec<u8>, Vec<u8>)>,
    raw_signature: Vec<u8>,
}

impl VerificationEngine<NoStorage> for SignEngine {
    fn configure(&mut self, _config: &String) -> Result<(), String> {
        Ok(())
    }
    fn create(&mut self, _call: &String) -> ContextTree {
        let payload = self.payload.clone();
        ContextTree {
            nodes: vec![mk_node(
                NodeKind::SignRequest,
                NodeState::WaitingForResponse,
                payload.as_str(),
                vec!["signer"],
            )],
        }
    }
    fn advance(&mut self, tree: &mut ContextTree, _storage: &mut Option<NoStorage>) -> Outcome {
        if tree.nodes[0].raw_response.is_none() {
            Outcome::NeedsInput
        } else {
            self.observed = tree.nodes[0].results.clone();
            Outcome::Resolved(self.resolve.clone())
        }
    }
    fn sign_with_key(&mut self, key: &Vec<u8>, message: &Vec<u8>) -> Result<Vec<u8>, String> {
        self.key_log.push((key.clone(), message.clone()));
        Ok(self.raw_signature.clone())
    }
}

/// Declares the tree stale for the first `stale` attempts, then resolves.
struct RetryEngine {
    stale: usize,
    creates: usize,
    resolve: String,
}

impl VerificationEngine<NoStorage> for RetryEngine {
    fn configure(&mut self, _config: &String) -> Result<(), String> {
        Ok(())
    }
    fn create(&mut self, _call: &String) -> ContextTree {
        self.creates += 1;
        let mut root = mk_node(NodeKind::RpcRequest, NodeState::WaitingForResponse, "{}", vec![]);
        root.required = Some(1);
        let child = mk_node(NodeKind::RpcRequest, NodeState::Ignorable, "{}", vec![]);
        ContextTree { nodes: vec![root, child] }
    }
    fn advance(&mut self, _tree: &mut ContextTree, _storage: &mut Option<NoStorage>) -> Outcome {
        if self.creates <= self.stale {
            Outcome::NeedsRetry
        } else {
            Outcome::Resolved(self.resolve.clone())
        }
    }
    fn sign_with_key(&mut self, _key: &Vec<u8>, _message: &Vec<u8>) -> Result<Vec<u8>, String> {
        Err("unsupported".to_string())
    }
}

/// Misbehaves: reports a state the tree does not show.
struct BrokenEngine {
    empty_tree: bool,
    report: Outcome,
}

impl VerificationEngine<NoStorage> for BrokenEngine {
    fn configure(&mut self, _config: &String) -> Result<(), String> {
        Ok(())
    }
    fn create(&mut self, _call: &String) -> ContextTree {
        if self.empty_tree {
            ContextTree { nodes: vec![] }
        } else {
            ContextTree { nodes: vec![mk_node(NodeKind::RpcRequest, NodeState::Resolved, "{}", vec![])] }
        }
    }
    fn advance(&mut self, _tree: &mut ContextTree, _storage: &mut Option<NoStorage>) -> Outcome {
        match &self.report {
            Outcome::NeedsRetry => Outcome::NeedsRetry,
            _ => Outcome::NeedsInput,
        }
    }
    fn sign_with_key(&mut self, _key: &Vec<u8>, _message: &Vec<u8>) -> Result<Vec<u8>, String> {
        Err("unsupported".to_string())
    }
}

/// Rejects every configuration object.
struct SourEngine;

impl VerificationEngine<NoStorage> for SourEngine {
    fn configure(&mut self, _config: &String) -> Result<(), String> {
        Err("engine says no".to_string())
    }
    fn create(&mut self, _call: &String) -> ContextTree {
        ContextTree { nodes: vec![mk_node(NodeKind::RpcRequest, NodeState::New, "{}", vec![])] }
    }
    fn advance(&mut self, _tree: &mut ContextTree, _storage: &mut Option<NoStorage>) -> Outcome {
        Outcome::NeedsInput
    }
    fn sign_with_key(&mut self, _key: &Vec<u8>, _message: &Vec<u8>) -> Result<Vec<u8>, String> {
        Err("unsupported".to_string())
    }
}

fn plain_transport() -> ScriptTransport {
    ScriptTransport::new(vec![])
}

// -------------------------------------------------- tests carried over

#[test]
fn test_in3_config() {
    let engine = ResolveEngine { payload: String::new(), creates: 0 };
    let mut in3: Client<ResolveEngine, ScriptTransport, NoSigner, NoStorage> =
        Client::new(chain::MAINNET, engine, plain_transport());
    let c = in3.configure(r#"{"autoUpdateList":false}"#);
    assert_eq!(c.is_err(), false);
}

#[test]
fn test_block_number() {
    let engine = ResolveEngine { payload: r#"[{"result":"0x989680"}]"#.to_string(), creates: 0 };
    let mut api: EthApi<ResolveEngine, ScriptTransport, NoSigner, NoStorage> = EthApi::new(
        engine,
        plain_transport(),
        r#"{"autoUpdateList":false,"nodes":{"0x1":{"needsUpdate":false}}}}"#,
    );
    let num: u64 = api.block_number().unwrap().as_u64().unwrap();
    println!("{:?}", num);
    assert!(num > 9000000, "Block number is not correct");
}

#[test]
fn test_get_balance() {
    let engine =
        ResolveEngine { payload: r#"[{"result":"0x11c37937e08000"}]"#.to_string(), creates: 0 };
    let mut api: EthApi<ResolveEngine, ScriptTransport, NoSigner, NoStorage> = EthApi::new(
        engine,
        plain_transport(),
        r#"{"autoUpdateList":false,"nodes":{"0x1":{"needsUpdate":false}}}}"#,
    );
    let num = api.getBalance("0xc94770007dda54cF92009BFF0dE90c06F603a09f".to_string()).unwrap();
    assert!(num != "", "Balance is not correct");
}

// ------------------------------------------------------ recording results

#[test]
fn record_results_is_idempotent() {
    let mut t = ContextTree {
        nodes: vec![mk_node(
            NodeKind::RpcRequest,
            NodeState::WaitingForResponse,
            "{}",
            vec!["a", "b"],
        )],
    };
    let outcomes = vec![
        TargetOutcome::Success("one".to_string()),
        TargetOutcome::Failure("two".to_string()),
    ];
    t.record_results(0, &outcomes);
    let first = snapshot(&t);
    t.record_results(0, &outcomes);
    let second = snapshot(&t);
    assert_eq!(first, second);
}

#[test]
fn record_results_fills_every_slot_in_order() {
    let mut t = ContextTree {
        nodes: vec![mk_node(
            NodeKind::RpcRequest,
            NodeState::WaitingForResponse,
            "{}",
            vec!["a", "b", "c"],
        )],
    };
    let outcomes = to_outcomes(&vec![
        Ok("ra".to_string()),
        Err("rb".to_string()),
        Ok("rc".to_string()),
    ]);
    t.record_results(0, &outcomes);
    let rendered: Vec<String> = t.nodes[0].results.iter().map(render_outcome).collect();
    assert_eq!(rendered, vec!["ok:ra".to_string(), "err:rb".to_string(), "ok:rc".to_string()]);
    assert!(t.nodes[0].raw_response.is_some());
}

// -------------------------------------------------------- frontier search

#[test]
fn frontier_is_the_deepest_waiting_node() {
    let mut root = mk_node(NodeKind::RpcRequest, NodeState::Resolved, "{}", vec![]);
    root.required = Some(1);
    let mut mid = mk_node(NodeKind::RpcRequest, NodeState::WaitingForResponse, "{}", vec![]);
    mid.required = Some(2);
    let deep = mk_node(NodeKind::RpcRequest, NodeState::WaitingForResponse, "{}", vec![]);
    let t = ContextTree { nodes: vec![root, mid, deep] };
    assert_eq!(t.find_frontier(), Some(2));
}

#[test]
fn frontier_finds_the_single_matching_node() {
    let mut root = mk_node(NodeKind::RpcRequest, NodeState::Resolved, "{}", vec![]);
    root.required = Some(1);
    let mut mid = mk_node(NodeKind::RpcRequest, NodeState::WaitingForResponse, "{}", vec![]);
    mid.required = Some(2);
    let mut deep = mk_node(NodeKind::RpcRequest, NodeState::WaitingForResponse, "{}", vec![]);
    deep.raw_response = Some("seen".to_string());
    let t = ContextTree { nodes: vec![root, mid, deep] };
    // Only the middle node still needs input: deepest-first must return it.
    assert_eq!(t.find_frontier(), Some(1));
}

#[test]
fn frontier_missing_when_nothing_waits() {
    let t = ContextTree {
        nodes: vec![mk_node(NodeKind::RpcRequest, NodeState::Resolved, "{}", vec![])],
    };
    assert_eq!(t.find_frontier(), None);
}

// --------------------------------------------------- all-failure collapse

#[test]
fn all_failures_collapse_to_first_error_verbatim() {
    let outcomes = to_outcomes(&vec![
        Err("first failure".to_string()),
        Err("second failure".to_string()),
    ]);
    assert_eq!(collapse_failures(&outcomes), Some("first failure".to_string()));
}

#[test]
fn one_success_prevents_collapse() {
    let outcomes = to_outcomes(&vec![
        Err("boom".to_string()),
        Ok("fine".to_string()),
        Err("boom".to_string()),
    ]);
    assert_eq!(collapse_failures(&outcomes), None);
}

// ----------------------------------------------------- end-to-end driving

#[test]
fn resolves_immediately_without_dispatch() {
    let engine = ResolveEngine { payload: r#"[{"result":"0x2a"}]"#.to_string(), creates: 0 };
    let mut client: Client<ResolveEngine, ScriptTransport, NoSigner, NoStorage> =
        Client::new(chain::MAINNET, engine, plain_transport());
    let r = client.rpc(r#"{"method":"eth_blockNumber","params":[]}"#).unwrap();
    assert_eq!(r, r#"[{"result":"0x2a"}]"#);
    assert_eq!(client.transport.calls, 0);
}

#[test]
fn rpc_frontier_records_both_targets_and_proceeds() {
    let engine = RpcEngine {
        targets: vec!["node-a".to_string(), "node-b".to_string()],
        resolve: r#"[{"result":"0x2a"}]"#.to_string(),
        observed: vec![],
    };
    let transport =
        ScriptTransport::new(vec![Ok("0x2a".to_string()), Err("connection reset".to_string())]);
    let mut client: Client<RpcEngine, ScriptTransport, NoSigner, NoStorage> =
        Client::new(chain::MAINNET, engine, transport);
    let r = client.rpc("{}").unwrap();
    assert_eq!(r, r#"[{"result":"0x2a"}]"#);
    assert_eq!(client.transport.calls, 1);
    let rendered: Vec<String> = client.engine.observed.iter().map(render_outcome).collect();
    assert_eq!(rendered, vec!["ok:0x2a".to_string(), "err:connection reset".to_string()]);
}

/// A two-node chain whose frontier is the deep node, not the root.
struct ChainRpcEngine {
    resolve: String,
    observed: Vec<Option<TargetOutcome>>,
}

impl VerificationEngine<NoStorage> for ChainRpcEngine {
    fn configure(&mut self, _config: &String) -> Result<(), String> {
        Ok(())
    }
    fn create(&mut self, _call: &String) -> ContextTree {
        let mut root = mk_node(NodeKind::RpcRequest, NodeState::New, "root-payload", vec![]);
        root.required = Some(1);
        let child = mk_node(
            NodeKind::RpcRequest,
            NodeState::WaitingForResponse,
            "deep-payload",
            vec!["node-a"],
        );
        ContextTree { nodes: vec![root, child] }
    }
    fn advance(&mut self, tree: &mut ContextTree, _storage: &mut Option<NoStorage>) -> Outcome {
        if tree.nodes[1].raw_response.is_none() {
            Outcome::NeedsInput
        } else {
            self.observed = tree.nodes[1].results.clone();
            Outcome::Resolved(self.resolve.clone())
        }
    }
    fn sign_with_key(&mut self, _key: &Vec<u8>, _message: &Vec<u8>) -> Result<Vec<u8>, String> {
        Err("unsupported".to_string())
    }
}

#[test]
fn deep_frontier_gets_its_own_payload_dispatched() {
    let engine = ChainRpcEngine { resolve: "deep-done".to_string(), observed: vec![] };
    let transport = ScriptTransport::new(vec![Ok("deep-result".to_string())]);
    let mut client: Client<ChainRpcEngine, ScriptTransport, NoSigner, NoStorage> =
        Client::new(chain::MAINNET, engine, transport);
    let r = client.rpc("{}").unwrap();
    assert_eq!(r, "deep-done");
    // The driver dispatched the deepest waiting node's payload, not the root's.
    assert_eq!(client.transport.seen_payloads, vec!["deep-payload".to_string()]);
    let rendered: Vec<String> = client.engine.observed.iter().map(render_outcome).collect();
    assert_eq!(rendered, vec!["ok:deep-result".to_string()]);
}

#[test]
fn all_targets_failing_surfaces_first_transport_error() {
    let engine = RpcEngine {
        targets: vec!["node-a".to_string(), "node-b".to_string()],
        resolve: String::new(),
        observed: vec![],
    };
    let transport = ScriptTransport::new(vec![
        Err("node a down".to_string()),
        Err("node b down".to_string()),
    ]);
    let mut client: Client<RpcEngine, ScriptTransport, NoSigner, NoStorage> =
        Client::new(chain::MAINNET, engine, transport);
    let e = client.rpc("{}").unwrap_err();
    assert!(e.is_transport());
    assert_eq!(e.message(), "node a down");
}

#[test]
fn sign_without_signer_or_key_fails_without_network() {
    let engine = SignEngine {
        payload: r#"{"params":["0xdeadbeef"]}"#.to_string(),
        resolve: String::new(),
        observed: vec![],
        key_log: vec![],
        raw_signature: vec![],
    };
    let mut client: Client<SignEngine, ScriptTransport, NoSigner, NoStorage> =
        Client::new(chain::MAINNET, engine, plain_transport());
    let e = client.rpc("{}").unwrap_err();
    assert!(e.is_signing());
    assert_eq!(client.transport.calls, 0);
    assert!(client.engine.key_log.is_empty());
}

#[test]
fn sign_through_capability_records_hex_signature() {
    let engine = SignEngine {
        payload: r#"{"params":["0xdeadbeef"]}"#.to_string(),
        resolve: "signed".to_string(),
        observed: vec![],
        key_log: vec![],
        raw_signature: vec![],
    };
    let signer = FixedSigner { signature: vec![0x01, 0xab, 0xff], log: vec![] };
    let mut client: Client<SignEngine, ScriptTransport, FixedSigner, NoStorage> =
        Client::new(chain::MAINNET, engine, plain_transport());
    client.set_signer(signer);
    let r = client.rpc("{}").unwrap();
    assert_eq!(r, "signed");
    let rendered: Vec<String> = client.engine.observed.iter().map(render_outcome).collect();
    assert_eq!(rendered, vec!["ok:01abff".to_string()]);
    // The signer saw the message with its "0x" prefix dropped.
    assert_eq!(client.signer.as_ref().unwrap().log, vec!["deadbeef".to_string()]);
    assert_eq!(client.transport.calls, 0);
}

#[test]
fn sign_falls_back_to_raw_key_path() {
    let engine = SignEngine {
        payload: r#"{"params":["0xdeadbeef"]}"#.to_string(),
        resolve: "signed".to_string(),
        observed: vec![],
        key_log: vec![],
        raw_signature: vec![0x44, 0x55],
    };
    let mut client: Client<SignEngine, ScriptTransport, NoSigner, NoStorage> =
        Client::new(chain::MAINNET, engine, plain_transport());
    client.set_pk_signer("c0ffee").unwrap();
    let r = client.rpc("{}").unwrap();
    assert_eq!(r, "signed");
    // The engine signed the hex-decoded message with the decoded key.
    assert_eq!(client.engine.key_log, vec![(vec![0xc0, 0xff, 0xee], vec![0xde, 0xad, 0xbe, 0xef])]);
    let rendered: Vec<String> = client.engine.observed.iter().map(render_outcome).collect();
    assert_eq!(rendered, vec!["ok:4455".to_string()]);
}

// ------------------------------------------------------ retries and limits

#[test]
fn stale_attempt_is_rebuilt_and_absorbed() {
    let engine = RetryEngine { stale: 2, creates: 0, resolve: "done".to_string() };
    let mut client: Client<RetryEngine, ScriptTransport, NoSigner, NoStorage> =
        Client::new(chain::MAINNET, engine, plain_transport());
    let r = client.rpc("{}").unwrap();
    assert_eq!(r, "done");
    // Two stale attempts were discarded; the third tree was built fresh.
    assert_eq!(client.engine.creates, 3);
}

#[test]
fn retry_ceiling_surfaces_exhausted() {
    let engine = RetryEngine { stale: usize::MAX, creates: 0, resolve: String::new() };
    let mut client: Client<RetryEngine, ScriptTransport, NoSigner, NoStorage> =
        Client::new(chain::MAINNET, engine, plain_transport());
    let e = client.rpc_with_limit("{}", 4).unwrap_err();
    assert!(e.is_exhausted());
    assert_eq!(client.engine.creates, 4);
}

#[test]
fn zero_attempts_is_exhausted_at_once() {
    let engine = RetryEngine { stale: 0, creates: 0, resolve: "done".to_string() };
    let mut client: Client<RetryEngine, ScriptTransport, NoSigner, NoStorage> =
        Client::new(chain::MAINNET, engine, plain_transport());
    let e = client.rpc_with_limit("{}", 0).unwrap_err();
    assert!(e.is_exhausted());
    assert_eq!(client.engine.creates, 0);
}

#[test]
fn discarded_tree_shares_nothing_with_a_fresh_one() {
    let mut engine = RetryEngine { stale: usize::MAX, creates: 0, resolve: String::new() };
    let call = "{}".to_string();
    let mut discarded = engine.create(&call);
    let fresh = engine.create(&call);
    let before = snapshot(&fresh);
    // A sentinel write to the discarded tree after the restart…
    discarded.mark_failed(0);
    discarded.record_results(0, &vec![TargetOutcome::Failure("sentinel".to_string())]);
    // …has no observable effect on the rebuilt tree.
    assert_eq!(snapshot(&fresh), before);
    assert!(snapshot(&discarded) != before);
}

// --------------------------------------------------- engine contract bugs

#[test]
fn missing_frontier_is_an_internal_error() {
    let engine = BrokenEngine { empty_tree: false, report: Outcome::NeedsInput };
    let mut client: Client<BrokenEngine, ScriptTransport, NoSigner, NoStorage> =
        Client::new(chain::MAINNET, engine, plain_transport());
    let e = client.rpc("{}").unwrap_err();
    assert!(e.is_internal());
    assert_eq!(e.message(), "could not find the last waiting context");
}

#[test]
fn missing_retry_point_is_an_internal_error() {
    let engine = BrokenEngine { empty_tree: false, report: Outcome::NeedsRetry };
    let mut client: Client<BrokenEngine, ScriptTransport, NoSigner, NoStorage> =
        Client::new(chain::MAINNET, engine, plain_transport());
    let e = client.rpc("{}").unwrap_err();
    assert!(e.is_internal());
}

#[test]
fn malformed_tree_is_an_internal_error() {
    let engine = BrokenEngine { empty_tree: true, report: Outcome::NeedsInput };
    let mut client: Client<BrokenEngine, ScriptTransport, NoSigner, NoStorage> =
        Client::new(chain::MAINNET, engine, plain_transport());
    let e = client.rpc("{}").unwrap_err();
    assert!(e.is_internal());
}

#[test]
fn engine_failure_is_a_verification_error() {
    struct FailEngine;
    impl VerificationEngine<NoStorage> for FailEngine {
        fn configure(&mut self, _config: &String) -> Result<(), String> {
            Ok(())
        }
        fn create(&mut self, _call: &String) -> ContextTree {
            ContextTree {
                nodes: vec![mk_node(NodeKind::RpcRequest, NodeState::New, "{}", vec![])],
            }
        }
        fn advance(&mut self, _tree: &mut ContextTree, _storage: &mut Option<NoStorage>) -> Outcome {
            Outcome::Failed("untrustworthy".to_string())
        }
        fn sign_with_key(&mut self, _key: &Vec<u8>, _message: &Vec<u8>) -> Result<Vec<u8>, String> {
            Err("unsupported".to_string())
        }
    }
    let mut client: Client<FailEngine, ScriptTransport, NoSigner, NoStorage> =
        Client::new(chain::MAINNET, FailEngine, plain_transport());
    let e = client.rpc("{}").unwrap_err();
    assert!(e.is_verification());
    assert_eq!(e.message(), "untrustworthy");
}

// ----------------------------------------------------------- configuration

#[test]
fn unrecognized_config_option_is_rejected() {
    let engine = ResolveEngine { payload: String::new(), creates: 0 };
    let mut client: Client<ResolveEngine, ScriptTransport, NoSigner, NoStorage> =
        Client::new(chain::MAINNET, engine, plain_transport());
    let e = client.configure(r#"{"autoUpdateList":false,"turboMode":true}"#).unwrap_err();
    assert!(e.is_configuration());
}

#[test]
fn malformed_config_is_rejected() {
    let engine = ResolveEngine { payload: String::new(), creates: 0 };
    let mut client: Client<ResolveEngine, ScriptTransport, NoSigner, NoStorage> =
        Client::new(chain::MAINNET, engine, plain_transport());
    assert!(client.configure("not json at all").unwrap_err().is_configuration());
    assert!(client.configure("[1,2,3]").unwrap_err().is_configuration());
}

#[test]
fn engine_rejection_is_a_configuration_error() {
    let mut client: Client<SourEngine, ScriptTransport, NoSigner, NoStorage> =
        Client::new(chain::MAINNET, SourEngine, plain_transport());
    let e = client.configure(r#"{"nodes":{}}"#).unwrap_err();
    assert!(e.is_configuration());
    assert_eq!(e.message(), "engine says no");
}

#[test]
fn checked_constructor_surfaces_a_rejected_configuration() {
    let engine = ResolveEngine { payload: String::new(), creates: 0 };
    let e = EthApi::<ResolveEngine, ScriptTransport, NoSigner, NoStorage>::new_configured(
        engine,
        plain_transport(),
        r#"{"turboMode":true}"#,
    )
    .err()
    .unwrap();
    assert!(e.is_configuration());
    let engine = ResolveEngine { payload: r#"[{"result":"0x01"}]"#.to_string(), creates: 0 };
    let mut api = EthApi::<ResolveEngine, ScriptTransport, NoSigner, NoStorage>::new_configured(
        engine,
        plain_transport(),
        r#"{"autoUpdateList":false}"#,
    )
    .ok()
    .unwrap();
    assert_eq!(api.block_number().unwrap().as_u64(), Some(1));
}

#[test]
fn sign_message_extraction_is_exact() {
    let ok = extract_sign_message(&r#"{"params":["0xdeadbeef"]}"#.to_string()).unwrap();
    assert_eq!(ok, "deadbeef");
    let short = extract_sign_message(&r#"{"params":["0"]}"#.to_string()).unwrap_err();
    assert!(short.is_internal());
    let missing = extract_sign_message(&r#"{"params":[]}"#.to_string()).unwrap_err();
    assert!(missing.is_internal());
}

#[test]
fn resolved_step_finishes_with_the_payload_untouched() {
    let engine = ResolveEngine { payload: String::new(), creates: 0 };
    let mut client: Client<ResolveEngine, ScriptTransport, NoSigner, NoStorage> =
        Client::new(chain::MAINNET, engine, plain_transport());
    let mut tree = ContextTree {
        nodes: vec![mk_node(NodeKind::RpcRequest, NodeState::New, "{}", vec![])],
    };
    let before = snapshot(&tree);
    let r = client.execute_step(&mut tree, Outcome::Resolved("0x2a".to_string()));
    match r {
        Some(Ok(s)) => assert_eq!(s, "0x2a"),
        _ => panic!("resolved outcome must finish the attempt"),
    }
    assert_eq!(snapshot(&tree), before);
    assert_eq!(client.transport.calls, 0);
    let r = client.execute_step(&mut tree, Outcome::Failed("stale proof".to_string()));
    match r {
        Some(Err(e)) => {
            assert!(e.is_verification());
            assert_eq!(e.message(), "stale proof");
        },
        _ => panic!("failed outcome must finish the attempt"),
    }
    assert_eq!(client.transport.calls, 0);
}

#[test]
fn bad_private_key_is_rejected() {
    let engine = ResolveEngine { payload: String::new(), creates: 0 };
    let mut client: Client<ResolveEngine, ScriptTransport, NoSigner, NoStorage> =
        Client::new(chain::MAINNET, engine, plain_transport());
    assert!(client.set_pk_signer("not hex").unwrap_err().is_configuration());
    assert!(client.set_pk_signer("abc").unwrap_err().is_configuration());
    assert!(client.set_pk_signer("abcd").is_ok());
}

// ------------------------------------------------------- hex and quantities

#[test]
fn hex_decoding_and_encoding() {
    assert_eq!(hex_decode("0a10ff"), Some(vec![0x0a, 0x10, 0xff]));
    assert_eq!(hex_decode("DEADbeef"), Some(vec![0xde, 0xad, 0xbe, 0xef]));
    assert_eq!(hex_decode(""), Some(vec![]));
    assert_eq!(hex_decode("abc"), None);
    assert_eq!(hex_decode("zz"), None);
    assert_eq!(hex_encode(&vec![0xde, 0xad, 0x01]), "dead01");
    assert_eq!(hex_encode(&vec![]), "");
}

#[test]
fn quantity_parsing_matches_the_format() {
    let q = parse_quantity("0x2a").unwrap();
    assert_eq!(q.0.len(), 32);
    assert_eq!(q.0[31], 42);
    assert_eq!(q.as_u64(), Some(42));
    let big = parse_quantity("0x989680").unwrap();
    assert_eq!(big.as_u64(), Some(10_000_000));
    assert!(parse_quantity("0xzz").is_err());
    let too_long = format!("0x{}", "1".repeat(65));
    assert!(parse_quantity(&too_long).is_err());
    let max_u64 = parse_quantity("0xffffffffffffffff").unwrap();
    assert_eq!(max_u64.as_u64(), Some(u64::MAX));
    let over = parse_quantity("0x10000000000000000").unwrap();
    assert_eq!(over.as_u64(), None);
}

#[test]
fn string_helpers_match_their_specs() {
    assert_eq!(strip_hex_prefix("0x0x2a"), "2a");
    assert_eq!(strip_hex_prefix("2a"), "2a");
    assert_eq!(strip_hex_prefix("0x"), "");
    assert_eq!(pad_left_zeros("ff", 6), "0000ff");
    assert_eq!(pad_left_zeros("abcdef", 4), "abcdef");
}

#[test]
fn response_parsing_is_exact() {
    let q = parse_block_number_response(r#"[{"result":"0x2a"}]"#).unwrap();
    assert_eq!(q.as_u64(), Some(42));
    assert!(parse_block_number_response(r#"{"no":"result"}"#).unwrap_err().is_verification());
    assert!(parse_block_number_response(r#"[{"result":"xyz"}]"#).unwrap_err().is_verification());
    assert_eq!(parse_balance_response(r#"[{"result":"0x1f"}]"#).unwrap(), "0x1f");
    assert!(parse_balance_response("[]").unwrap_err().is_verification());
}

#[test]
fn request_rendering_is_exact() {
    let r = RpcRequest { method: "eth_blockNumber".to_string(), params: "[]".to_string() };
    assert_eq!(r.to_json(), r#"{"method":"eth_blockNumber","params":[]}"#);
    let b = RpcRequest {
        method: "eth_getBalance".to_string(),
        params: r#"["0xabc","latest"]"#.to_string(),
    };
    assert_eq!(b.to_json(), r#"{"method":"eth_getBalance","params":["0xabc","latest"]}"#);
}

#[test]
fn error_kinds_and_messages() {
    assert!(Error::TryAgain.is_try_again());
    assert!(Error::Exhausted.is_exhausted());
    let t = Error::Transport("lost".to_string());
    assert!(t.is_transport());
    assert_eq!(t.message(), "lost");
    assert!(Error::Verification("v".to_string()).is_verification());
    assert!(Error::Signing("s".to_string()).is_signing());
    assert!(Error::Internal("i".to_string()).is_internal());
    assert!(Error::Configuration("c".to_string()).is_configuration());
}
