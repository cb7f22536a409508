//! The context tree: the dependency structure built by the verification
//! engine and walked by the execution driver.
//!
//! Nodes live in an arena (`ContextTree::nodes`) addressed by stable
//! indices; the `required` relation is stored as an index and always points
//! strictly forward, so the dependency structure is a chain rooted at node
//! 0, not a general graph.  The driver walks that chain deepest-first to
//! locate the frontier: the single deepest unresolved node that must be
//! satisfied next.

use vstd::prelude::*;

verus! {

/// What a context node asks for.
#[derive(Clone, Copy, PartialEq, Eq, Structural, Debug)]
pub enum NodeKind {
    /// The node's payload carries a message that must be signed.
    SignRequest,
    /// The node's payload must be sent to every target endpoint.
    RpcRequest,
}

/// The lifecycle state of a context node.  States are set by the
/// verification engine; the driver never invents states, it only reacts
/// to them.
#[derive(Clone, Copy, PartialEq, Eq, Structural, Debug)]
pub enum NodeState {
    New,
    Ignorable,
    WaitingForResponse,
    Resolved,
    Failed,
}

/// One per-target outcome: a success payload or an error message.
#[derive(Clone, Debug)]
pub enum TargetOutcome {
    Success(String),
    Failure(String),
}

/// The mathematical model of a [`TargetOutcome`].
pub ghost enum OutcomeModel {
    Success(Seq<char>),
    Failure(Seq<char>),
}

impl View for TargetOutcome {
    type V = OutcomeModel;

    open spec fn view(&self) -> OutcomeModel {
        match self {
            TargetOutcome::Success(s) => OutcomeModel::Success(s@),
            TargetOutcome::Failure(s) => OutcomeModel::Failure(s@),
        }
    }
}

impl OutcomeModel {
    /// The text carried by the outcome, success payload or error message.
    pub open spec fn text(&self) -> Seq<char> {
        match self {
            OutcomeModel::Success(s) => *s,
            OutcomeModel::Failure(s) => *s,
        }
    }
}

impl TargetOutcome {
    /// True exactly for the failure case.
    pub fn is_failure(&self) -> (r: bool)
        ensures
            r == (self@ is Failure),
    {
        matches!(self, TargetOutcome::Failure(_))
    }

    /// The carried text, success payload or error message.
    pub fn text(&self) -> (r: String)
        ensures
            r@ == self@.text(),
    {
        match self {
            TargetOutcome::Success(s) => s.clone(),
            TargetOutcome::Failure(s) => s.clone(),
        }
    }

    /// A copy equal to this outcome.
    pub fn duplicate(&self) -> (r: TargetOutcome)
        ensures
            r == *self,
    {
        match self {
            TargetOutcome::Success(s) => TargetOutcome::Success(s.clone()),
            TargetOutcome::Failure(s) => TargetOutcome::Failure(s.clone()),
        }
    }
}

/// One request awaiting resolution.
pub struct ContextNode {
    /// How the node's leaf request is dispatched.
    pub kind: NodeKind,
    /// Lifecycle state, owned by the verification engine.
    pub state: NodeState,
    /// Opaque payload to send.
    pub payload: String,
    /// Ordered endpoint identifiers; one payload may go to several
    /// redundant endpoints.
    pub targets: Vec<String>,
    /// Present once any response has been recorded for this node;
    /// absence signals "not yet attempted".
    pub raw_response: Option<String>,
    /// Per-target outcome slots, index-aligned with `targets`.
    pub results: Vec<Option<TargetOutcome>>,
    /// Arena index of the at most one dependency that must resolve first.
    pub required: Option<usize>,
}

/// The mathematical model of a [`ContextNode`].
pub ghost struct NodeModel {
    pub kind: NodeKind,
    pub state: NodeState,
    pub payload: Seq<char>,
    pub targets: Seq<Seq<char>>,
    pub raw_response: Option<Seq<char>>,
    pub results: Seq<Option<OutcomeModel>>,
    pub required: Option<int>,
}

impl View for ContextNode {
    type V = NodeModel;

    open spec fn view(&self) -> NodeModel {
        NodeModel {
            kind: self.kind,
            state: self.state,
            payload: self.payload@,
            targets: Seq::new(self.targets@.len(), |i: int| self.targets@[i]@),
            raw_response: match self.raw_response {
                Some(s) => Some(s@),
                None => None,
            },
            results: Seq::new(
                self.results@.len(),
                |i: int| match self.results@[i] {
                    Some(o) => Some(o@),
                    None => None,
                },
            ),
            required: match self.required {
                Some(j) => Some(j as int),
                None => None,
            },
        }
    }
}

/// The tree of context nodes for one in-flight call.  Node 0 is the root;
/// the chain of `required` links leads to the frontier.
pub struct ContextTree {
    pub nodes: Vec<ContextNode>,
}

impl View for ContextTree {
    type V = Seq<NodeModel>;

    open spec fn view(&self) -> Seq<NodeModel> {
        Seq::new(self.nodes@.len(), |i: int| self.nodes@[i]@)
    }
}

/// A node is a frontier candidate when it still waits for a response and
/// none has been recorded yet.
pub open spec fn needs_input(n: NodeModel) -> bool {
    n.state == NodeState::WaitingForResponse && n.raw_response is None
}

/// A node is a retry point when its immediate dependency is in the
/// `Ignorable` state, which invalidates the whole tree for this attempt.
pub open spec fn has_ignorable_child(nodes: Seq<NodeModel>, i: int) -> bool {
    &&& 0 <= i < nodes.len()
    &&& match nodes[i].required {
        Some(j) => 0 <= j < nodes.len() && nodes[j].state == NodeState::Ignorable,
        None => false,
    }
}

/// Well-formedness of the arena: a nonempty chain whose `required` links
/// point strictly forward, with per-node result slots index-aligned with
/// the targets.
pub open spec fn wf_nodes(nodes: Seq<NodeModel>) -> bool {
    &&& 0 < nodes.len()
    &&& forall|i: int|
        0 <= i < nodes.len() ==> match (#[trigger] nodes[i]).required {
            Some(j) => i < j < nodes.len(),
            None => true,
        }
    &&& forall|i: int|
        0 <= i < nodes.len() ==> (#[trigger] nodes[i]).results.len() == nodes[i].targets.len()
}

/// The indices on the `required` chain starting at `i`.
pub open spec fn on_chain(nodes: Seq<NodeModel>, i: int, k: int) -> bool
    decreases nodes.len() - i when 0 <= i < nodes.len() && wf_nodes(nodes)
{
    if 0 <= i < nodes.len() {
        i == k || match nodes[i].required {
            Some(j) => if i < j < nodes.len() {
                on_chain(nodes, j, k)
            } else {
                false
            },
            None => false,
        }
    } else {
        false
    }
}

/// The deepest index on the chain from `i` whose node still needs input:
/// the frontier of the walk that starts at `i`.
pub open spec fn frontier_from(nodes: Seq<NodeModel>, i: int) -> Option<int>
    decreases nodes.len() - i when 0 <= i < nodes.len() && wf_nodes(nodes)
{
    if 0 <= i < nodes.len() {
        let deeper = match nodes[i].required {
            Some(j) => if i < j < nodes.len() {
                frontier_from(nodes, j)
            } else {
                None
            },
            None => None,
        };
        if deeper is Some {
            deeper
        } else if needs_input(nodes[i]) {
            Some(i)
        } else {
            None
        }
    } else {
        None
    }
}

/// The deepest index on the chain from `i` whose immediate dependency is
/// `Ignorable`: the node to mark failed before a full-tree retry.
pub open spec fn retry_point_from(nodes: Seq<NodeModel>, i: int) -> Option<int>
    decreases nodes.len() - i when 0 <= i < nodes.len() && wf_nodes(nodes)
{
    if 0 <= i < nodes.len() {
        let deeper = match nodes[i].required {
            Some(j) => if i < j < nodes.len() {
                retry_point_from(nodes, j)
            } else {
                None
            },
            None => None,
        };
        if deeper is Some {
            deeper
        } else if has_ignorable_child(nodes, i) {
            Some(i)
        } else {
            None
        }
    } else {
        None
    }
}

/// The models of a sequence of outcomes.
pub open spec fn outcome_models(o: Seq<TargetOutcome>) -> Seq<OutcomeModel> {
    Seq::new(o.len(), |i: int| o[i]@)
}

/// The text recorded into `raw_response` when a set of outcomes is
/// written: the first outcome's text, or empty when there is none.
pub open spec fn first_text(o: Seq<OutcomeModel>) -> Seq<char> {
    if o.len() > 0 {
        o[0].text()
    } else {
        Seq::<char>::empty()
    }
}

/// The model of a node after a set of capability outcomes has been
/// recorded into it: each outcome fills its index-aligned slot, and the
/// raw-response slot becomes present.  Writing is by target index, never
/// by arrival order, so the operation is a pure function of the outcome
/// set — recording the same outcomes again changes nothing
/// ([`lemma_record_idempotent`]).
pub open spec fn record_node(n: NodeModel, o: Seq<OutcomeModel>) -> NodeModel {
    NodeModel {
        raw_response: Some(first_text(o)),
        results: Seq::new(
            n.results.len(),
            |k: int| if 0 <= k < o.len() {
                Some(o[k])
            } else {
                n.results[k]
            },
        ),
        ..n
    }
}

/// Idempotent result recording: writing the same outcome set twice leaves
/// the node model identical to writing it once.
pub proof fn lemma_record_idempotent(n: NodeModel, o: Seq<OutcomeModel>)
    ensures
        record_node(record_node(n, o), o) == record_node(n, o),
{
    assert(record_node(record_node(n, o), o).results =~= record_node(n, o).results);
}

/// Either `a`, when it is present, or else `b`: how a deepest-first walk
/// combines the deeper part of the chain with the best match so far.
pub open spec fn deeper_or(a: Option<int>, b: Option<int>) -> Option<int> {
    if a is Some {
        a
    } else {
        b
    }
}

/// The model of the index held by an optional arena index.
pub open spec fn index_model(o: Option<usize>) -> Option<int> {
    match o {
        Some(u) => Some(u as int),
        None => None,
    }
}

impl ContextTree {
    /// Well-formedness of this tree's arena.
    pub open spec fn wf(&self) -> bool {
        wf_nodes(self@)
    }

    /// Checks at run time that the arena is a well-formed forward chain.
    /// The driver revalidates the tree after every engine step, since the
    /// engine is free to rebuild it.
    pub fn check_wf(&self) -> (r: bool)
        ensures
            r == self.wf(),
    {
        let n = self.nodes.len();
        if n == 0 {
            return false;
        }
        let mut i: usize = 0;
        while i < n
            invariant
                i <= n,
                n == self.nodes@.len(),
                n == self@.len(),
                forall|k: int|
                    0 <= k < i ==> match (#[trigger] self@[k]).required {
                        Some(j) => k < j < n,
                        None => true,
                    },
                forall|k: int|
                    0 <= k < i ==> (#[trigger] self@[k]).results.len() == self@[k].targets.len(),
            decreases n - i,
        {
            match self.nodes[i].required {
                Some(j) => {
                    if !(i < j && j < n) {
                        assert(!wf_nodes(self@));
                        return false;
                    }
                },
                None => {},
            }
            if self.nodes[i].results.len() != self.nodes[i].targets.len() {
                assert(self@[i as int].results.len() != self@[i as int].targets.len());
                return false;
            }
            i += 1;
        }
        true
    }

    /// The deepest-first frontier search: the deepest node on the
    /// `required` chain from the root whose state is `WaitingForResponse`
    /// and whose raw-response slot is still empty.  Depth order, first
    /// match wins; the walk is deterministic.
    pub fn find_frontier(&self) -> (r: Option<usize>)
        requires
            self.wf(),
        ensures
            index_model(r) == frontier_from(self@, 0),
            r matches Some(u) ==> u < self.nodes@.len() && needs_input(self@[u as int]),
    {
        let ghost nodes = self@;
        let n = self.nodes.len();
        let mut cur: usize = 0;
        let mut best: Option<usize> = None;
        loop
            invariant
                self.wf(),
                n == nodes.len(),
                nodes == self@,
                cur < n,
                best matches Some(b) ==> b < n && needs_input(nodes[b as int]),
                deeper_or(frontier_from(nodes, cur as int), index_model(best)) == frontier_from(
                    nodes,
                    0,
                ),
            ensures
                index_model(best) == frontier_from(nodes, 0),
                best matches Some(b) ==> b < n && needs_input(nodes[b as int]),
            decreases n - cur,
        {
            let node = &self.nodes[cur];
            if matches!(node.state, NodeState::WaitingForResponse) && node.raw_response.is_none() {
                best = Some(cur);
            }
            match node.required {
                Some(j) => {
                    cur = j;
                },
                None => {
                    break;
                },
            }
        }
        best
    }

    /// The deepest-first retry-point search: the deepest node on the chain
    /// whose immediate dependency is `Ignorable`.  That node is marked
    /// failed before the whole tree is discarded for a fresh attempt.
    pub fn find_retry_point(&self) -> (r: Option<usize>)
        requires
            self.wf(),
        ensures
            index_model(r) == retry_point_from(self@, 0),
            r matches Some(u) ==> u < self.nodes@.len(),
    {
        let ghost nodes = self@;
        let n = self.nodes.len();
        let mut cur: usize = 0;
        let mut best: Option<usize> = None;
        loop
            invariant
                self.wf(),
                n == nodes.len(),
                nodes == self@,
                cur < n,
                best matches Some(b) ==> b < n,
                deeper_or(retry_point_from(nodes, cur as int), index_model(best))
                    == retry_point_from(nodes, 0),
            ensures
                index_model(best) == retry_point_from(nodes, 0),
                best matches Some(b) ==> b < n,
            decreases n - cur,
        {
            let node = &self.nodes[cur];
            match node.required {
                Some(j) => {
                    if matches!(self.nodes[j].state, NodeState::Ignorable) {
                        best = Some(cur);
                    }
                    assert(has_ignorable_child(nodes, cur as int) == (self.nodes@[j as int].state
                        == NodeState::Ignorable));
                    cur = j;
                },
                None => {
                    assert(!has_ignorable_child(nodes, cur as int));
                    break;
                },
            }
        }
        best
    }

    /// Marks one node failed, leaving every other node unchanged.
    pub fn mark_failed(&mut self, i: usize)
        requires
            i < old(self).nodes@.len(),
        ensures
            final(self)@ =~= old(self)@.update(
                i as int,
                NodeModel { state: NodeState::Failed, ..old(self)@[i as int] },
            ),
    {
        let mut node = self.nodes.remove(i);
        node.state = NodeState::Failed;
        self.nodes.insert(i, node);
        assert(final(self)@ =~= old(self)@.update(
            i as int,
            NodeModel { state: NodeState::Failed, ..old(self)@[i as int] },
        ));
    }

    /// Writes capability outcomes into a node's result slots, by target
    /// index, and marks the node attempted by filling its raw-response
    /// slot.  Re-recording identical outcomes leaves the tree identical
    /// ([`lemma_record_idempotent`]).
    pub fn record_results(&mut self, i: usize, outcomes: &Vec<TargetOutcome>)
        requires
            i < old(self).nodes@.len(),
        ensures
            final(self)@ =~= old(self)@.update(
                i as int,
                record_node(old(self)@[i as int], outcome_models(outcomes@)),
            ),
    {
        let ghost target = record_node(old(self)@[i as int], outcome_models(outcomes@));
        let mut node = self.nodes.remove(i);
        let ghost pre = node;
        let slots = node.results.len();
        let mut fresh: Vec<Option<TargetOutcome>> = Vec::new();
        let mut k: usize = 0;
        while k < slots
            invariant
                k <= slots,
                slots == pre.results@.len(),
                node == pre,
                fresh@.len() == k,
                forall|m: int|
                    0 <= m < k ==> #[trigger] fresh@[m] == (if m < outcomes@.len() {
                        Some(outcomes@[m])
                    } else {
                        pre.results@[m]
                    }),
            decreases slots - k,
        {
            if k < outcomes.len() {
                fresh.push(Some(outcomes[k].duplicate()));
            } else {
                match &node.results[k] {
                    Some(o) => fresh.push(Some(o.duplicate())),
                    None => fresh.push(None),
                }
            }
            k += 1;
        }
        node.results = fresh;
        if outcomes.len() > 0 {
            node.raw_response = Some(outcomes[0].text());
        } else {
            node.raw_response = Some(String::new());
        }
        assert(node@.results =~= target.results);
        assert(node@ == target);
        self.nodes.insert(i, node);
        assert(final(self)@ =~= old(self)@.update(i as int, target));
    }
}

/// What a successful frontier search returns is always a node on the
/// chain that still needs input.
pub proof fn lemma_frontier_on_chain(nodes: Seq<NodeModel>, s: int, k: int)
    requires
        wf_nodes(nodes),
        0 <= s < nodes.len(),
        frontier_from(nodes, s) == Some(k),
    ensures
        on_chain(nodes, s, k),
        0 <= k < nodes.len(),
        needs_input(nodes[k]),
    decreases nodes.len() - s,
{
    match nodes[s].required {
        Some(j) => {
            if frontier_from(nodes, j) is Some {
                lemma_frontier_on_chain(nodes, j, k);
            }
        },
        None => {},
    }
}

/// When some node on the chain still needs input, the frontier search
/// finds one.
pub proof fn lemma_frontier_finds(nodes: Seq<NodeModel>, s: int, i: int)
    requires
        wf_nodes(nodes),
        0 <= s < nodes.len(),
        on_chain(nodes, s, i),
        needs_input(nodes[i]),
    ensures
        frontier_from(nodes, s) is Some,
    decreases nodes.len() - s,
{
    if s != i {
        match nodes[s].required {
            Some(j) => {
                lemma_frontier_finds(nodes, j, i);
            },
            None => {},
        }
    }
}

/// Frontier determinism: in a tree with exactly one node on the chain
/// that satisfies the frontier predicate (state `WaitingForResponse`,
/// raw response absent), the deepest-first walk returns exactly that
/// node, regardless of anything else in the tree.
pub proof fn lemma_frontier_unique(nodes: Seq<NodeModel>, i: int)
    requires
        wf_nodes(nodes),
        on_chain(nodes, 0, i),
        needs_input(nodes[i]),
        forall|k: int| on_chain(nodes, 0, k) && needs_input(nodes[k]) ==> k == i,
    ensures
        frontier_from(nodes, 0) == Some(i),
{
    lemma_frontier_finds(nodes, 0, i);
    let k = frontier_from(nodes, 0)->0;
    lemma_frontier_on_chain(nodes, 0, k);
}

/// After recording an outcome for every target, every result slot of the
/// node is filled: the driver never proceeds past a dispatch while any
/// target's outcome is missing.
pub proof fn lemma_record_fills_all_slots(n: NodeModel, o: Seq<OutcomeModel>)
    requires
        o.len() == n.targets.len(),
        n.results.len() == n.targets.len(),
    ensures
        forall|k: int|
            0 <= k < n.targets.len() ==> (#[trigger] record_node(n, o).results[k]) == Some(o[k]),
        record_node(n, o).raw_response is Some,
{
}

} // verus!
