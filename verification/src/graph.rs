//! The dependency graph: work items joined by typed edges, with no cycle among them.

use crate::digraph::{
    add_edge, add_node, clone_graph, edge_count, edges_from, edges_of, find_edge, has_cycle, is_cyclic,
    is_first_into, is_walk, new_graph, node_count, node_weight, nodes_of, remove_edge, unlinked,
    walk_order, EdgeView,
};
use crate::node::{Node, NodeKind, NodeView};
use petgraph::graph::Graph;
use petgraph::Directed;
use std::collections::HashMap;
use vstd::prelude::*;

verus! {

broadcast use vstd::std_specs::hash::group_hash_axioms;

/// How one work item depends on another.
#[derive(Debug, Clone, Copy, PartialEq, Eq, Structural)]
pub enum DependencyType {
    Blocks,
    ResourcesRequiredFor,
    Contains,
}

/// What `add_node` answers where the graph already holds a vertex with the identifier.
pub const DUPLICATE_NODE: &'static str = "The node has already been inserted into the graph";

/// What `connect_nodes` answers where the policy does not allow the edge.
pub const INVALID_CONNECTION: &'static str = "Invalid connection between the two nodes";

/// What `connect_nodes` answers where the graph does not hold one of the two vertices.
pub const UNKNOWN_NODE: &'static str = "One or more of the nodes does not exist in the graph";

/// What `connect_nodes` answers where the edge would close a cycle.
pub const WOULD_CYCLE: &'static str = "Connection would create a cycle";

/// Whether a work item of kind `from` may contain one of kind `to`: a spec holds specs and
/// projects, a project holds projects, epics and user stories, an epic holds user stories, a
/// user story holds tasks, and tasks hold nothing.
pub open spec fn may_contain(from: NodeKind, to: NodeKind) -> bool {
    match from {
        NodeKind::Spec => to == NodeKind::Spec || to == NodeKind::Project,
        NodeKind::Project => to == NodeKind::Project || to == NodeKind::Epic || to
            == NodeKind::UserStory,
        NodeKind::Epic => to == NodeKind::UserStory,
        NodeKind::UserStory => to == NodeKind::Tasks,
        NodeKind::Tasks => false,
    }
}

/// Whether the two kinds are one kind on which work is coordinated: any but spec.
pub open spec fn same_level(from: NodeKind, to: NodeKind) -> bool {
    from == to && from != NodeKind::Spec
}

/// The compatibility policy: whether a work item of kind `from` may have a dependency of
/// kind `dep` on one of kind `to`. Containment follows the hierarchy. Blocking and the need
/// of resources hold between work items of one level; besides, a user story may block an
/// epic, and tasks may be resources required for a user story.
pub open spec fn allows(from: NodeKind, to: NodeKind, dep: DependencyType) -> bool {
    match dep {
        DependencyType::Contains => may_contain(from, to),
        DependencyType::Blocks => same_level(from, to) || (from == NodeKind::UserStory && to
            == NodeKind::Epic),
        DependencyType::ResourcesRequiredFor => same_level(from, to) || (from == NodeKind::Tasks
            && to == NodeKind::UserStory),
    }
}

/// Whether the triple is one of those that the policy lists.
pub open spec fn is_listed(from: NodeKind, to: NodeKind, dep: DependencyType) -> bool {
    let triple = (from, to, dep);
    ||| triple == (NodeKind::Spec, NodeKind::Spec, DependencyType::Contains)
    ||| triple == (NodeKind::Spec, NodeKind::Project, DependencyType::Contains)
    ||| triple == (NodeKind::Project, NodeKind::Project, DependencyType::Contains)
    ||| triple == (NodeKind::Project, NodeKind::Project, DependencyType::Blocks)
    ||| triple == (NodeKind::Project, NodeKind::Project, DependencyType::ResourcesRequiredFor)
    ||| triple == (NodeKind::Project, NodeKind::Epic, DependencyType::Contains)
    ||| triple == (NodeKind::Project, NodeKind::UserStory, DependencyType::Contains)
    ||| triple == (NodeKind::Epic, NodeKind::UserStory, DependencyType::Contains)
    ||| triple == (NodeKind::Epic, NodeKind::Epic, DependencyType::Blocks)
    ||| triple == (NodeKind::Epic, NodeKind::Epic, DependencyType::ResourcesRequiredFor)
    ||| triple == (NodeKind::UserStory, NodeKind::Tasks, DependencyType::Contains)
    ||| triple == (NodeKind::UserStory, NodeKind::UserStory, DependencyType::Blocks)
    ||| triple == (NodeKind::UserStory, NodeKind::UserStory, DependencyType::ResourcesRequiredFor)
    ||| triple == (NodeKind::UserStory, NodeKind::Epic, DependencyType::Blocks)
    ||| triple == (NodeKind::Tasks, NodeKind::Tasks, DependencyType::Blocks)
    ||| triple == (NodeKind::Tasks, NodeKind::Tasks, DependencyType::ResourcesRequiredFor)
    ||| triple == (NodeKind::Tasks, NodeKind::UserStory, DependencyType::ResourcesRequiredFor)
}

/// The policy allows the listed triples and no other.
pub proof fn lemma_policy_is_the_list(from: NodeKind, to: NodeKind, dep: DependencyType)
    ensures
        allows(from, to, dep) <==> is_listed(from, to, dep),
{
}

/// The position of the vertex with the identifier `id`, where there is one.
pub open spec fn position_of(nodes: Seq<NodeView>, id: u128) -> Option<int> {
    if exists|i: int| 0 <= i < nodes.len() && #[trigger] nodes[i].id == id {
        Some(choose|i: int| 0 <= i < nodes.len() && #[trigger] nodes[i].id == id)
    } else {
        None
    }
}

/// Whether no two vertices share an identifier.
pub open spec fn ids_unique(nodes: Seq<NodeView>) -> bool {
    forall|i: int, j: int|
        0 <= i < nodes.len() && 0 <= j < nodes.len() && #[trigger] nodes[i].id
            == #[trigger] nodes[j].id ==> i == j
}

/// Whether every edge joins two of `count` vertices.
pub open spec fn edges_in_range(edges: Seq<EdgeView>, count: int) -> bool {
    forall|e: int|
        0 <= e < edges.len() ==> 0 <= (#[trigger] edges[e]).source < count && 0
            <= edges[e].target < count
}

/// The positions of the edges that leave the vertex at `from`, the edge added last first.
pub open spec fn outgoing(edges: Seq<EdgeView>, from: int) -> Seq<int>
    decreases edges.len(),
{
    if edges.len() == 0 {
        Seq::empty()
    } else {
        let earlier = outgoing(edges.drop_last(), from);
        if edges.last().source == from {
            seq![edges.len() - 1] + earlier
        } else {
            earlier
        }
    }
}

/// What the vertex at `from` depends on: for each edge that leaves it, the edge added last
/// first, the identifier of the vertex that the edge enters and the kind of the edge.
pub open spec fn dependencies(nodes: Seq<NodeView>, edges: Seq<EdgeView>, from: int) -> Seq<
    (u128, DependencyType),
> {
    outgoing(edges, from).map_values(|e: int| (nodes[edges[e].target].id, edges[e].kind))
}

/// Where no two of `nodes` share an identifier and none has that of `node`, adding `node` at
/// the end gives its identifier the new position and leaves every other where it was.
pub proof fn lemma_positions_after_push(nodes: Seq<NodeView>, node: NodeView, id: u128)
    requires
        ids_unique(nodes),
        position_of(nodes, node.id) is None,
    ensures
        ids_unique(nodes.push(node)),
        position_of(nodes.push(node), id) == (if id == node.id {
            Some(nodes.len() as int)
        } else {
            position_of(nodes, id)
        }),
{
    let after = nodes.push(node);
    assert(after[nodes.len() as int].id == node.id);
    assert forall|i: int, j: int|
        0 <= i < after.len() && 0 <= j < after.len() && #[trigger] after[i].id
            == #[trigger] after[j].id implies i == j by {
        if i < nodes.len() {
            assert(nodes[i].id == after[i].id);
        }
        if j < nodes.len() {
            assert(nodes[j].id == after[j].id);
        }
    }
    if position_of(after, id) is Some {
        let j = position_of(after, id)->0;
        if j < nodes.len() {
            assert(nodes[j].id == id);
        }
    }
    if position_of(nodes, id) is Some {
        let i = position_of(nodes, id)->0;
        assert(after[i].id == id);
    }
}

/// Whether the policy allows every edge between the kinds of the two vertices that it joins.
pub open spec fn edges_allowed(nodes: Seq<NodeView>, edges: Seq<EdgeView>) -> bool {
    forall|e: int|
        0 <= e < edges.len() ==> allows(
            nodes[(#[trigger] edges[e]).source].kind,
            nodes[edges[e].target].kind,
            edges[e].kind,
        )
}

/// Every position in `outgoing` is that of an edge, and of one that leaves `from`.
pub proof fn lemma_outgoing_are_edges(edges: Seq<EdgeView>, from: int)
    ensures
        forall|k: int|
            0 <= k < outgoing(edges, from).len() ==> 0 <= #[trigger] outgoing(edges, from)[k]
                < edges.len() && edges[outgoing(edges, from)[k]].source == from,
    decreases edges.len(),
{
    if edges.len() > 0 {
        lemma_outgoing_are_edges(edges.drop_last(), from);
    }
}

proof fn lemma_outgoing_push(edges: Seq<EdgeView>, e: EdgeView, from: int)
    ensures
        outgoing(edges.push(e), from) == (if e.source == from {
            seq![edges.len() as int] + outgoing(edges, from)
        } else {
            outgoing(edges, from)
        }),
{
    assert(edges.push(e).drop_last() =~= edges);
}

/// A new edge comes first among the dependencies of the vertex that it leaves, and changes
/// those of no other vertex.
pub proof fn lemma_dependencies_after_connect(
    nodes: Seq<NodeView>,
    edges: Seq<EdgeView>,
    added: EdgeView,
    from: int,
)
    ensures
        dependencies(nodes, edges.push(added), from) == (if added.source == from {
            seq![(nodes[added.target].id, added.kind)] + dependencies(nodes, edges, from)
        } else {
            dependencies(nodes, edges, from)
        }),
{
    lemma_outgoing_push(edges, added, from);
    lemma_outgoing_are_edges(edges, from);
    let after = edges.push(added);
    let before_list = dependencies(nodes, edges, from);
    let after_list = dependencies(nodes, after, from);
    if added.source == from {
        let wanted = seq![(nodes[added.target].id, added.kind)] + before_list;
        assert(after_list.len() == wanted.len());
        assert forall|k: int| 0 <= k < wanted.len() implies after_list[k] == wanted[k] by {
            if k > 0 {
                assert(outgoing(after, from)[k] == outgoing(edges, from)[k - 1]);
            }
        }
        assert(after_list =~= wanted);
    } else {
        assert(after_list =~= before_list);
    }
}

proof fn lemma_outgoing_of_fresh_vertex(edges: Seq<EdgeView>, from: int)
    requires
        forall|e: int| 0 <= e < edges.len() ==> (#[trigger] edges[e]).source != from,
    ensures
        outgoing(edges, from) == Seq::<int>::empty(),
    decreases edges.len(),
{
    if edges.len() > 0 {
        lemma_outgoing_of_fresh_vertex(edges.drop_last(), from);
    }
}

proof fn lemma_unlinked_absent(order: Seq<int>, gone: int, moved: int)
    requires
        forall|k: int| 0 <= k < order.len() ==> #[trigger] order[k] != gone && order[k] != moved,
    ensures
        unlinked(order, gone, moved) == order,
    decreases order.len(),
{
    if order.len() > 0 {
        lemma_unlinked_absent(order.drop_first(), gone, moved);
        assert(seq![order[0]] + order.drop_first() =~= order);
    }
}

/// Whether `order` gives, for each of `count` vertices, the edges that leave it, the one
/// added last first.
spec fn order_agrees(order: Seq<Seq<int>>, edges: Seq<EdgeView>, count: nat) -> bool {
    &&& order.len() == count
    &&& forall|a: int| 0 <= a < order.len() ==> #[trigger] order[a] == outgoing(edges, a)
}

/// Whether `index` gives each identifier among `nodes` its position, and holds nothing else.
spec fn index_agrees(index: Map<u128, u32>, nodes: Seq<NodeView>) -> bool {
    &&& forall|id: u128| #[trigger]
        index.contains_key(id) ==> index[id] < nodes.len() && nodes[index[id] as int].id == id
    &&& forall|i: int|
        0 <= i < nodes.len() ==> index.contains_key((#[trigger] nodes[i]).id) && index[nodes[i].id]
            == i
}

proof fn lemma_order_after_add_node(order: Seq<Seq<int>>, edges: Seq<EdgeView>, count: nat)
    requires
        order_agrees(order, edges, count),
        edges_in_range(edges, count as int),
    ensures
        order_agrees(order.push(Seq::<int>::empty()), edges, count + 1),
{
    lemma_outgoing_of_fresh_vertex(edges, count as int);
}

proof fn lemma_order_after_add_edge(
    order: Seq<Seq<int>>,
    edges: Seq<EdgeView>,
    count: nat,
    added: EdgeView,
)
    requires
        order_agrees(order, edges, count),
        0 <= added.source < count,
    ensures
        order_agrees(
            order.update(added.source, seq![edges.len() as int] + order[added.source]),
            edges.push(added),
            count,
        ),
{
    let after = order.update(added.source, seq![edges.len() as int] + order[added.source]);
    assert forall|a: int| 0 <= a < after.len() implies #[trigger] after[a] == outgoing(
        edges.push(added),
        a,
    ) by {
        lemma_outgoing_push(edges, added, a);
    }
}

/// Taking the edge added last out again gives every walk order back as it was.
proof fn lemma_order_after_undo(
    order: Seq<Seq<int>>,
    edges: Seq<EdgeView>,
    count: nat,
    from: int,
    undone: Seq<Seq<int>>,
)
    requires
        order_agrees(order, edges, count),
        0 <= from < count,
        undone.len() == count,
        forall|v: int|
            0 <= v < count ==> #[trigger] undone[v] == unlinked(
                order.update(from, seq![edges.len() as int] + order[from])[v],
                edges.len() as int,
                edges.len() as int,
            ),
    ensures
        undone == order,
{
    let at = edges.len() as int;
    let added_to = order.update(from, seq![at] + order[from]);
    assert forall|v: int| 0 <= v < count implies #[trigger] undone[v] == order[v] by {
        lemma_outgoing_are_edges(edges, v);
        lemma_unlinked_absent(order[v], at, at);
        if v == from {
            assert(added_to[v].drop_first() =~= order[v]);
        }
    }
    assert(undone =~= order);
}

/// A search along a walk order whose first edge enters `target` finds that edge.
proof fn lemma_first_is_found(
    edges: Seq<EdgeView>,
    path: Seq<int>,
    target: int,
    found: Option<int>,
)
    requires
        path.len() > 0,
        edges[path[0]].target == target,
        is_first_into(edges, path, target, found),
    ensures
        found == Some(path[0]),
{
    match found {
        Some(e) => {
            let k = choose|k: int|
                0 <= k < path.len() && #[trigger] path[k] == e && edges[e].target == target
                    && forall|j: int| 0 <= j < k ==> edges[#[trigger] path[j]].target != target;
            if k > 0 {
                assert(edges[path[0]].target != target);
            }
        },
        None => {
            assert(edges[path[0]].target != target);
        },
    }
}

proof fn lemma_no_cycle_without_edges()
    ensures
        !has_cycle(Seq::<EdgeView>::empty()),
{
    reveal(has_cycle);
    let edges = Seq::<EdgeView>::empty();
    assert forall|path: Seq<int>| !(#[trigger] is_walk(edges, path)) by {
        if is_walk(edges, path) {
            assert(0 <= path[0] < edges.len());
        }
    }
}

/// The dependency graph. Between calls it holds no cycle, no two vertices share an identifier,
/// and every edge joins two of its vertices.
#[derive(Debug)]
pub struct ProjectGraph {
    graph: Graph<Node, DependencyType, Directed, u32>,
    uid_to_index: HashMap<u128, u32>,
}

impl Clone for ProjectGraph {
    fn clone(&self) -> (g: ProjectGraph)
        ensures
            g.nodes() == self.nodes(),
            g.edges() == self.edges(),
            self.wf() ==> g.wf(),
    {
        let g = ProjectGraph {
            graph: clone_graph(&self.graph),
            uid_to_index: self.uid_to_index.clone(),
        };
        assert(g.nodes() =~= self.nodes());
        g
    }
}

impl ProjectGraph {
    /// The vertices, in the order in which they were inserted.
    pub closed spec fn nodes(&self) -> Seq<NodeView> {
        nodes_of(self.graph).map_values(|n: Node| n@)
    }

    /// The edges, in the order in which they were connected.
    pub closed spec fn edges(&self) -> Seq<EdgeView> {
        edges_of(self.graph)
    }

    /// Whether the graph is well formed: what `lemma_invariants` states, and the identifier
    /// index and the walk orders agree with the vertices and edges.
    pub closed spec fn wf(&self) -> bool {
        let nodes = self.nodes();
        let edges = self.edges();
        let order = walk_order(self.graph);
        let index = self.uid_to_index@;
        &&& nodes.len() <= u32::MAX
        &&& edges.len() <= u32::MAX
        &&& edges_in_range(edges, nodes.len() as int)
        &&& !has_cycle(edges)
        &&& order_agrees(order, edges, nodes.len())
        &&& index_agrees(index, nodes)
    }

    /// Whether the graph holds a vertex with the identifier `id`.
    pub open spec fn contains_id(&self, id: u128) -> bool {
        position_of(self.nodes(), id) is Some
    }

    /// The position of the vertex with the identifier `id`.
    pub open spec fn index_of(&self, id: u128) -> int
        recommends
            self.contains_id(id),
    {
        position_of(self.nodes(), id)->0
    }

    /// A well-formed graph holds no cycle, no identifier twice, and no edge that leaves or
    /// enters anything but one of its vertices.
    pub proof fn lemma_invariants(&self)
        requires
            self.wf(),
        ensures
            !has_cycle(self.edges()),
            ids_unique(self.nodes()),
            edges_in_range(self.edges(), self.nodes().len() as int),
            self.nodes().len() <= u32::MAX,
            self.edges().len() <= u32::MAX,
    {
        let nodes = self.nodes();
        assert forall|i: int, j: int|
            0 <= i < nodes.len() && 0 <= j < nodes.len() && #[trigger] nodes[i].id
                == #[trigger] nodes[j].id implies i == j by {
            assert(self.uid_to_index@[nodes[i].id] == i);
            assert(self.uid_to_index@[nodes[j].id] == j);
        }
    }

    proof fn lemma_index(&self, id: u128)
        requires
            self.wf(),
        ensures
            self.uid_to_index@.contains_key(id) <==> self.contains_id(id),
            self.uid_to_index@.contains_key(id) ==> self.index_of(id) == self.uid_to_index@[id],
    {
        let nodes = self.nodes();
        let index = self.uid_to_index@;
        if index.contains_key(id) {
            assert(nodes[index[id] as int].id == id);
        }
        if position_of(nodes, id) is Some {
            let i = choose|i: int| 0 <= i < nodes.len() && #[trigger] nodes[i].id == id;
            assert(index.contains_key(nodes[i].id));
        }
    }

    /// A graph with no vertices and no edges.
    pub fn new() -> (g: ProjectGraph)
        ensures
            g.wf(),
            g.nodes() == Seq::<NodeView>::empty(),
            g.edges() == Seq::<EdgeView>::empty(),
    {
        let g = ProjectGraph { graph: new_graph(), uid_to_index: HashMap::new() };
        proof {
            lemma_no_cycle_without_edges();
            assert(g.nodes() =~= Seq::<NodeView>::empty());
        }
        g
    }

    /// The number of vertices.
    pub fn node_count(&self) -> (n: usize)
        ensures
            n == self.nodes().len(),
    {
        node_count(&self.graph)
    }

    /// The number of edges.
    pub fn edge_count(&self) -> (n: usize)
        ensures
            n == self.edges().len(),
    {
        edge_count(&self.graph)
    }

    /// Scans the whole graph for a directed cycle. A well-formed graph has none.
    pub fn is_cyclic(&self) -> (cyclic: bool)
        ensures
            cyclic == has_cycle(self.edges()),
            self.wf() ==> !cyclic,
    {
        is_cyclic(&self.graph)
    }

    /// Whether the policy allows a dependency of kind `dep_type` from `from` to `to`.
    pub fn is_valid_connection(from: &Node, to: &Node, dep_type: &DependencyType) -> (ok: bool)
        ensures
            ok == allows(from@.kind, to@.kind, *dep_type),
    {
        match (from.kind(), to.kind(), *dep_type) {
            (NodeKind::Spec, NodeKind::Spec, DependencyType::Contains) => true,
            (NodeKind::Spec, NodeKind::Project, DependencyType::Contains) => true,
            (NodeKind::Project, NodeKind::Project, DependencyType::Contains) => true,
            (NodeKind::Project, NodeKind::Epic, DependencyType::Contains) => true,
            (NodeKind::Project, NodeKind::UserStory, DependencyType::Contains) => true,
            (NodeKind::Epic, NodeKind::UserStory, DependencyType::Contains) => true,
            (NodeKind::UserStory, NodeKind::Tasks, DependencyType::Contains) => true,
            (NodeKind::Project, NodeKind::Project, DependencyType::Blocks) => true,
            (NodeKind::Epic, NodeKind::Epic, DependencyType::Blocks) => true,
            (NodeKind::UserStory, NodeKind::UserStory, DependencyType::Blocks) => true,
            (NodeKind::Tasks, NodeKind::Tasks, DependencyType::Blocks) => true,
            (NodeKind::UserStory, NodeKind::Epic, DependencyType::Blocks) => true,
            (NodeKind::Project, NodeKind::Project, DependencyType::ResourcesRequiredFor) => true,
            (NodeKind::Epic, NodeKind::Epic, DependencyType::ResourcesRequiredFor) => true,
            (NodeKind::UserStory, NodeKind::UserStory, DependencyType::ResourcesRequiredFor) => true,
            (NodeKind::Tasks, NodeKind::Tasks, DependencyType::ResourcesRequiredFor) => true,
            (NodeKind::Tasks, NodeKind::UserStory, DependencyType::ResourcesRequiredFor) => true,
            _ => false,
        }
    }

    /// Inserts a copy of `node`, unless the graph already holds a vertex with its identifier.
    /// The graph must have room: fewer than `u32::MAX` vertices.
    pub fn add_node(&mut self, node: &Node) -> (r: Result<(), &'static str>)
        requires
            old(self).wf(),
            old(self).nodes().len() < u32::MAX,
        ensures
            final(self).wf(),
            final(self).edges() == old(self).edges(),
            final(self).contains_id(node@.id),
            old(self).contains_id(node@.id) ==> r == Err::<(), &'static str>(DUPLICATE_NODE)
                && final(self).nodes() == old(self).nodes(),
            !old(self).contains_id(node@.id) ==> r is Ok && final(self).nodes() == old(
                self,
            ).nodes().push(node@),
    {
        let node_id = node.get_id();
        proof {
            self.lemma_index(node_id);
        }
        if self.uid_to_index.contains_key(&node_id) {
            return Err(DUPLICATE_NODE);
        }
        let ghost before = *self;
        let node_idx = add_node(&mut self.graph, node.clone());
        self.uid_to_index.insert(node_id, node_idx);
        proof {
            let nodes = self.nodes();
            let edges = self.edges();
            assert(nodes =~= before.nodes().push(node@));
            before.lemma_invariants();
            lemma_positions_after_push(before.nodes(), node@, node_id);
            lemma_order_after_add_node(walk_order(before.graph), edges, before.nodes().len());
            assert forall|i: int| 0 <= i < nodes.len() implies self.uid_to_index@.contains_key(
                (#[trigger] nodes[i]).id,
            ) && self.uid_to_index@[nodes[i].id] == i by {
                if i < before.nodes().len() {
                    assert(before.nodes()[i].id != node_id) by {
                        before.lemma_index(node_id);
                    }
                }
            }
        }
        Ok(())
    }
}

impl ProjectGraph {
    /// The edge that a dependency of kind `dep_type` from the vertex `from` to the vertex `to`
    /// adds.
    pub open spec fn edge_between(&self, from: u128, to: u128, dep_type: DependencyType) -> EdgeView
        recommends
            self.contains_id(from),
            self.contains_id(to),
    {
        EdgeView { source: self.index_of(from), target: self.index_of(to), kind: dep_type }
    }

    /// What `connect_nodes` answers: the policy decides first, then whether the graph holds
    /// both vertices, then whether the edge would close a cycle.
    pub open spec fn connect_outcome(
        &self,
        from: NodeView,
        to: NodeView,
        dep_type: DependencyType,
    ) -> Result<(), &'static str> {
        if !allows(from.kind, to.kind, dep_type) {
            Err(INVALID_CONNECTION)
        } else if !self.contains_id(from.id) || !self.contains_id(to.id) {
            Err(UNKNOWN_NODE)
        } else if has_cycle(self.edges().push(self.edge_between(from.id, to.id, dep_type))) {
            Err(WOULD_CYCLE)
        } else {
            Ok(())
        }
    }

    /// Adds the edge, scans the graph for a cycle, and takes the edge out again where there
    /// is one.
    fn try_connect(&mut self, node1: &Node, node2: &Node, dep_type: DependencyType) -> (r: Result<
        (),
        &'static str,
    >)
        requires
            old(self).wf(),
            old(self).edges().len() < u32::MAX,
            old(self).contains_id(node1@.id),
            old(self).contains_id(node2@.id),
        ensures
            final(self).wf(),
            final(self).nodes() == old(self).nodes(),
            has_cycle(old(self).edges().push(old(self).edge_between(node1@.id, node2@.id, dep_type)))
                ==> r == Err::<(), &'static str>(WOULD_CYCLE) && final(self).edges() == old(
                self,
            ).edges(),
            !has_cycle(
                old(self).edges().push(old(self).edge_between(node1@.id, node2@.id, dep_type)),
            ) ==> r == Ok::<(), &'static str>(()) && final(self).edges() == old(self).edges().push(
                old(self).edge_between(node1@.id, node2@.id, dep_type),
            ),
    {
        let u1 = node1.get_id();
        let u2 = node2.get_id();
        proof {
            self.lemma_index(u1);
            self.lemma_index(u2);
        }
        let from_idx: u32 = match self.uid_to_index.get(&u1) {
            Some(idx) => *idx,
            None => {
                return Err(UNKNOWN_NODE);
            },
        };
        let to_idx: u32 = match self.uid_to_index.get(&u2) {
            Some(idx) => *idx,
            None => {
                return Err(UNKNOWN_NODE);
            },
        };
        let ghost before = *self;
        let ghost edges0 = before.edges();
        let ghost order0 = walk_order(before.graph);
        let ghost count = before.nodes().len();
        let ghost added = before.edge_between(u1, u2, dep_type);

        add_edge(&mut self.graph, from_idx, to_idx, dep_type);

        let ghost edges1 = self.edges();
        let ghost order1 = walk_order(self.graph);
        assert(edges1 == edges0.push(added));

        if is_cyclic(&self.graph) {
            let found = find_edge(&self.graph, from_idx, to_idx);
            proof {
                let given: Option<int> = match found {
                    Some(e) => Some(e as int),
                    None => None,
                };
                lemma_first_is_found(edges1, order1[from_idx as int], to_idx as int, given);
            }
            if let Some(edge_idx) = found {
                remove_edge(&mut self.graph, edge_idx);
            }
            proof {
                assert(self.edges() =~= edges0);
                lemma_order_after_undo(
                    order0,
                    edges0,
                    count,
                    from_idx as int,
                    walk_order(self.graph),
                );
            }
            return Err(WOULD_CYCLE);
        }
        proof {
            lemma_order_after_add_edge(order0, edges0, count, added);
        }
        Ok(())
    }

    /// Connects the vertex with the identifier of `node1` to the one with the identifier of
    /// `node2` by an edge of kind `dep_type`. The policy judges the two work items as they are
    /// handed in, before the graph is asked whether it holds them. An edge that would close a
    /// cycle is refused, and the graph is then as it was. The graph must have room: fewer
    /// than `u32::MAX` edges.
    pub fn connect_nodes(&mut self, node1: &Node, node2: &Node, dep_type: DependencyType) -> (r:
        Result<(), &'static str>)
        requires
            old(self).wf(),
            old(self).edges().len() < u32::MAX,
        ensures
            final(self).wf(),
            final(self).nodes() == old(self).nodes(),
            r == old(self).connect_outcome(node1@, node2@, dep_type),
            r is Ok ==> final(self).edges() == old(self).edges().push(
                old(self).edge_between(node1@.id, node2@.id, dep_type),
            ),
            r is Err ==> final(self).edges() == old(self).edges(),
    {
        let u1 = node1.get_id();
        let u2 = node2.get_id();

        if !Self::is_valid_connection(node1, node2, &dep_type) {
            return Err(INVALID_CONNECTION);
        }
        proof {
            self.lemma_index(u1);
            self.lemma_index(u2);
        }
        if !self.uid_to_index.contains_key(&u1) || !self.uid_to_index.contains_key(&u2) {
            return Err(UNKNOWN_NODE);
        }
        self.try_connect(node1, node2, dep_type)
    }

    /// The vertex at `position`, counting from the first one inserted, where there is one.
    pub fn node_at(&self, position: usize) -> (r: Option<&Node>)
        requires
            self.wf(),
        ensures
            match r {
                Some(node) => position < self.nodes().len() && node@ == self.nodes()[position as int],
                None => position >= self.nodes().len(),
            },
    {
        if position > u32::MAX as usize {
            return None;
        }
        node_weight(&self.graph, position as u32)
    }

    /// The vertex with the identifier `id`, where the graph holds one.
    pub fn get_node(&self, id: u128) -> (r: Option<&Node>)
        requires
            self.wf(),
        ensures
            match r {
                Some(node) => self.contains_id(id) && node@ == self.nodes()[self.index_of(id)],
                None => !self.contains_id(id),
            },
    {
        proof {
            self.lemma_index(id);
        }
        match self.uid_to_index.get(&id) {
            Some(idx) => node_weight(&self.graph, *idx),
            None => None,
        }
    }

    /// What the vertex with the identifier `uuid` depends on, where the graph holds it: for
    /// each edge that leaves it, the one connected last first, the identifier of the vertex
    /// that the edge enters and the kind of the edge.
    pub fn get_dependencies(&self, uuid: u128) -> (r: Option<Vec<(u128, DependencyType)>>)
        requires
            self.wf(),
        ensures
            match r {
                Some(deps) => self.contains_id(uuid) && deps@ == dependencies(
                    self.nodes(),
                    self.edges(),
                    self.index_of(uuid),
                ),
                None => !self.contains_id(uuid),
            },
    {
        proof {
            self.lemma_index(uuid);
        }
        let from: u32 = match self.uid_to_index.get(&uuid) {
            Some(idx) => *idx,
            None => {
                return None;
            },
        };
        let found = edges_from(&self.graph, from);
        let ghost wanted = dependencies(self.nodes(), self.edges(), from as int);
        proof {
            lemma_outgoing_are_edges(self.edges(), from as int);
        }
        let mut deps: Vec<(u128, DependencyType)> = Vec::new();
        let mut k: usize = 0;
        while k < found.len()
            invariant
                self.wf(),
                k <= found.len(),
                found@.len() == wanted.len(),
                from < walk_order(self.graph).len(),
                wanted == dependencies(self.nodes(), self.edges(), from as int),
                forall|j: int|
                    0 <= j < found@.len() ==> (#[trigger] found@[j]).0 == self.edges()[outgoing(
                        self.edges(),
                        from as int,
                    )[j]].target && found@[j].1 == self.edges()[outgoing(
                        self.edges(),
                        from as int,
                    )[j]].kind,
                forall|j: int|
                    0 <= j < outgoing(self.edges(), from as int).len() ==> 0 <= #[trigger] outgoing(
                        self.edges(),
                        from as int,
                    )[j] < self.edges().len(),
                deps@ == wanted.take(k as int),
            decreases found.len() - k,
        {
            let (target, kind) = found[k];
            let ghost e = outgoing(self.edges(), from as int)[k as int];
            assert(0 <= self.edges()[e].target < self.nodes().len());
            if let Some(node) = node_weight(&self.graph, target) {
                deps.push((node.get_id(), kind));
            }
            assert(deps@ =~= wanted.take(k + 1));
            k = k + 1;
        }
        assert(wanted.take(k as int) =~= wanted);
        Some(deps)
    }
}

impl ProjectGraph {
    /// After an insert the graph holds the identifier at one position only, the last where
    /// the insert was accepted; so a second insert of the identifier is refused.
    pub proof fn lemma_inserted_once(before: ProjectGraph, after: ProjectGraph, node: NodeView)
        requires
            before.wf(),
            after.wf(),
            !before.contains_id(node.id),
            after.nodes() == before.nodes().push(node),
        ensures
            after.contains_id(node.id),
            after.index_of(node.id) == before.nodes().len(),
            forall|i: int|
                0 <= i < after.nodes().len() && (#[trigger] after.nodes()[i]).id == node.id ==> i
                    == before.nodes().len(),
    {
        before.lemma_invariants();
        after.lemma_invariants();
        lemma_positions_after_push(before.nodes(), node, node.id);
        assert(after.nodes()[before.nodes().len() as int].id == node.id);
    }

    /// Where the policy does not allow the edge, `connect_nodes` answers `INVALID_CONNECTION`,
    /// whatever the graph holds and whether or not the edge would close a cycle.
    pub proof fn lemma_policy_decides_first(
        &self,
        from: NodeView,
        to: NodeView,
        dep_type: DependencyType,
    )
        requires
            !allows(from.kind, to.kind, dep_type),
        ensures
            self.connect_outcome(from, to, dep_type) == Err::<(), &'static str>(INVALID_CONNECTION),
    {
    }

    /// What the lookups answer depends on the vertices and edges alone: two graphs that hold
    /// the same give the same answers.
    pub proof fn lemma_answers_follow_contents(a: ProjectGraph, b: ProjectGraph, id: u128)
        requires
            a.nodes() == b.nodes(),
            a.edges() == b.edges(),
        ensures
            a.contains_id(id) == b.contains_id(id),
            a.index_of(id) == b.index_of(id),
            a.contains_id(id) ==> a.nodes()[a.index_of(id)] == b.nodes()[b.index_of(id)],
            dependencies(a.nodes(), a.edges(), a.index_of(id)) == dependencies(
                b.nodes(),
                b.edges(),
                b.index_of(id),
            ),
    {
    }

    /// An edge from a vertex to itself is refused as a cycle wherever the policy allows it.
    pub proof fn lemma_loop_is_refused(&self, node: NodeView, dep_type: DependencyType)
        requires
            allows(node.kind, node.kind, dep_type),
            self.contains_id(node.id),
        ensures
            self.connect_outcome(node, node, dep_type) == Err::<(), &'static str>(WOULD_CYCLE),
    {
        reveal(has_cycle);
        let edges = self.edges().push(self.edge_between(node.id, node.id, dep_type));
        let path = seq![self.edges().len() as int];
        assert(is_walk(edges, path));
        assert(path.last() == self.edges().len());
    }
}

impl ProjectGraph {
    /// Where every edge is one that the policy allows between the vertices as the graph holds
    /// them, it stays so after a connect whose two work items were handed in with the kinds
    /// that the graph holds them with.
    pub proof fn lemma_edges_stay_allowed(
        before: ProjectGraph,
        after: ProjectGraph,
        from: NodeView,
        to: NodeView,
        dep_type: DependencyType,
    )
        requires
            before.wf(),
            edges_allowed(before.nodes(), before.edges()),
            before.connect_outcome(from, to, dep_type) is Ok,
            before.nodes()[before.index_of(from.id)].kind == from.kind,
            before.nodes()[before.index_of(to.id)].kind == to.kind,
            after.nodes() == before.nodes(),
            after.edges() == before.edges().push(before.edge_between(from.id, to.id, dep_type)),
        ensures
            edges_allowed(after.nodes(), after.edges()),
    {
    }
}

} // verus!
