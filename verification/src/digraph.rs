//! The directed graph that holds the work items, kept in a petgraph `Graph`. This file says
//! what the library takes from petgraph: what a graph holds, and what each call it makes does
//! to that. Nothing in this file is proved; each contract is taken on trust.

use crate::graph::DependencyType;
use crate::node::Node;
use petgraph::algo::is_cyclic_directed;
use petgraph::graph::{EdgeIndex, Graph, NodeIndex};
use petgraph::visit::EdgeRef;
use petgraph::Directed;
use vstd::prelude::*;

verus! {

/// petgraph's `Graph`, a value that verified code holds and hands on without looking inside.
#[verifier::external_type_specification]
#[verifier::external_body]
#[verifier::reject_recursive_types(N)]
#[verifier::reject_recursive_types(E)]
#[verifier::reject_recursive_types(Ty)]
#[verifier::reject_recursive_types(Ix)]
pub struct ExGraph<N, E, Ty, Ix>(Graph<N, E, Ty, Ix>);

/// petgraph's marker for a graph whose edges have a direction.
#[verifier::external_type_specification]
#[verifier::external_body]
pub struct ExDirected(Directed);

/// An edge: the positions of the vertex it leaves and of the vertex it enters, and its kind.
pub struct EdgeView {
    pub source: int,
    pub target: int,
    pub kind: DependencyType,
}

/// The vertices of the graph, each at its position (petgraph's node index).
pub uninterp spec fn nodes_of(g: Graph<Node, DependencyType, Directed, u32>) -> Seq<Node>;

/// The edges of the graph, each at its position (petgraph's edge index).
pub uninterp spec fn edges_of(g: Graph<Node, DependencyType, Directed, u32>) -> Seq<EdgeView>;

/// For each vertex, at its position, the positions of the edges that leave it, in the order
/// in which petgraph walks them (`Graph::edges`, `Graph::find_edge`).
pub uninterp spec fn walk_order(g: Graph<Node, DependencyType, Directed, u32>) -> Seq<Seq<int>>;

/// Whether `path`, a list of edge positions, is a walk: it is not empty, and each of its
/// edges enters the vertex that the next one leaves.
pub open spec fn is_walk(edges: Seq<EdgeView>, path: Seq<int>) -> bool {
    &&& path.len() > 0
    &&& forall|i: int| 0 <= i < path.len() ==> 0 <= #[trigger] path[i] < edges.len()
    &&& forall|i: int, j: int|
        0 <= i && j == i + 1 && j < path.len() ==> edges[#[trigger] path[i]].target
            == edges[#[trigger] path[j]].source
}

/// Whether the edges hold a directed cycle: a walk that ends in the vertex it starts from.
/// An edge from a vertex to itself is one.
#[verifier::opaque]
pub open spec fn has_cycle(edges: Seq<EdgeView>) -> bool {
    exists|path: Seq<int>|
        #[trigger] is_walk(edges, path) && edges[path.last()].target == edges[path[0]].source
}

/// A walk order after the edge at `gone` left the graph and the edge at `moved` took its
/// position: `gone` is dropped, `moved` is renamed to `gone`, and the rest stays in order.
pub open spec fn unlinked(order: Seq<int>, gone: int, moved: int) -> Seq<int>
    decreases order.len(),
{
    if order.len() == 0 {
        order
    } else {
        let rest = unlinked(order.drop_first(), gone, moved);
        if order[0] == gone {
            rest
        } else if order[0] == moved {
            seq![gone] + rest
        } else {
            seq![order[0]] + rest
        }
    }
}

/// The edges after the one at `at` left: the last edge takes its position.
pub open spec fn without_edge(edges: Seq<EdgeView>, at: int) -> Seq<EdgeView> {
    edges.update(at, edges.last()).drop_last()
}

/// Whether `out` lists the edges at the positions `order`, in that order, each as the
/// position of the vertex it enters and its kind.
pub open spec fn lists_edges(
    out: Seq<(u32, DependencyType)>,
    edges: Seq<EdgeView>,
    order: Seq<int>,
) -> bool {
    &&& out.len() == order.len()
    &&& forall|k: int|
        0 <= k < out.len() ==> (#[trigger] out[k]).0 == edges[order[k]].target && out[k].1
            == edges[order[k]].kind
}

/// Whether `found` is what a search along `order` for an edge that enters `target` gives: the
/// first such edge, or nothing where there is none.
pub open spec fn is_first_into(
    edges: Seq<EdgeView>,
    order: Seq<int>,
    target: int,
    found: Option<int>,
) -> bool {
    match found {
        Some(e) => exists|k: int|
            0 <= k < order.len() && #[trigger] order[k] == e && edges[e].target == target
                && forall|j: int| 0 <= j < k ==> edges[#[trigger] order[j]].target != target,
        None => forall|k: int|
            0 <= k < order.len() ==> edges[#[trigger] order[k]].target != target,
    }
}

/// `Graph::new`: a graph with no vertices and no edges.
#[verifier::external_body]
pub(crate) fn new_graph() -> (g: Graph<Node, DependencyType, Directed, u32>)
    ensures
        nodes_of(g) == Seq::<Node>::empty(),
        edges_of(g) == Seq::<EdgeView>::empty(),
        walk_order(g) == Seq::<Seq<int>>::empty(),
{
    Graph::new()
}

/// `Graph::clone`: a graph with the same positions, edges and walk orders, whose vertices are
/// the clones of this one's, each made by `Node::clone`.
#[verifier::external_body]
pub(crate) fn clone_graph(g: &Graph<Node, DependencyType, Directed, u32>) -> (copy: Graph<
    Node,
    DependencyType,
    Directed,
    u32,
>)
    ensures
        nodes_of(copy).len() == nodes_of(*g).len(),
        forall|i: int|
            0 <= i < nodes_of(*g).len() ==> (#[trigger] nodes_of(copy)[i])@ == nodes_of(*g)[i]@,
        edges_of(copy) == edges_of(*g),
        walk_order(copy) == walk_order(*g),
{
    g.clone()
}

/// `Graph::node_count`: the number of vertices.
#[verifier::external_body]
pub(crate) fn node_count(g: &Graph<Node, DependencyType, Directed, u32>) -> (n: usize)
    ensures
        n == nodes_of(*g).len(),
{
    g.node_count()
}

/// `Graph::edge_count`: the number of edges.
#[verifier::external_body]
pub(crate) fn edge_count(g: &Graph<Node, DependencyType, Directed, u32>) -> (n: usize)
    ensures
        n == edges_of(*g).len(),
{
    g.edge_count()
}

/// `Graph::add_node`: the vertex goes to the end and gets the next position; no edge leaves
/// it yet. petgraph panics at `u32::MAX` vertices, so there must be fewer.
#[verifier::external_body]
pub(crate) fn add_node(g: &mut Graph<Node, DependencyType, Directed, u32>, weight: Node) -> (at: u32)
    requires
        nodes_of(*old(g)).len() < u32::MAX,
    ensures
        at == nodes_of(*old(g)).len(),
        nodes_of(*final(g)) == nodes_of(*old(g)).push(weight),
        edges_of(*final(g)) == edges_of(*old(g)),
        walk_order(*final(g)) == walk_order(*old(g)).push(Seq::<int>::empty()),
{
    g.add_node(weight).index() as u32
}

/// `Graph::node_weight`: the vertex at a position, where there is one.
#[verifier::external_body]
pub(crate) fn node_weight(g: &Graph<Node, DependencyType, Directed, u32>, at: u32) -> (w: Option<
    &Node,
>)
    ensures
        match w {
            Some(node) => at < nodes_of(*g).len() && *node == nodes_of(*g)[at as int],
            None => at >= nodes_of(*g).len(),
        },
{
    g.node_weight(NodeIndex::new(at as usize))
}

/// `Graph::add_edge`: the edge goes to the end and gets the next position, and it becomes the
/// first edge that a walk from its source meets. petgraph panics where an endpoint is no
/// vertex and at `u32::MAX` edges.
#[verifier::external_body]
pub(crate) fn add_edge(
    g: &mut Graph<Node, DependencyType, Directed, u32>,
    source: u32,
    target: u32,
    kind: DependencyType,
) -> (at: u32)
    requires
        source < nodes_of(*old(g)).len(),
        target < nodes_of(*old(g)).len(),
        edges_of(*old(g)).len() < u32::MAX,
    ensures
        at == edges_of(*old(g)).len(),
        nodes_of(*final(g)) == nodes_of(*old(g)),
        edges_of(*final(g)) == edges_of(*old(g)).push(
            EdgeView { source: source as int, target: target as int, kind },
        ),
        walk_order(*final(g)) == walk_order(*old(g)).update(
            source as int,
            seq![at as int] + walk_order(*old(g))[source as int],
        ),
{
    g.add_edge(NodeIndex::new(source as usize), NodeIndex::new(target as usize), kind).index() as u32
}

/// `petgraph::algo::is_cyclic_directed`: whether the graph holds a directed cycle. The search
/// is recursive, as deep as the longest walk it follows.
#[verifier::external_body]
pub(crate) fn is_cyclic(g: &Graph<Node, DependencyType, Directed, u32>) -> (cyclic: bool)
    ensures
        cyclic == has_cycle(edges_of(*g)),
{
    is_cyclic_directed(g)
}

/// `Graph::find_edge`: the first edge from `source` to `target` that a walk from `source`
/// meets; nothing where there is none or `source` is no vertex.
#[verifier::external_body]
pub(crate) fn find_edge(
    g: &Graph<Node, DependencyType, Directed, u32>,
    source: u32,
    target: u32,
) -> (found: Option<u32>)
    ensures
        source < nodes_of(*g).len() ==> is_first_into(
            edges_of(*g),
            walk_order(*g)[source as int],
            target as int,
            match found {
                Some(e) => Some(e as int),
                None => None,
            },
        ),
        source >= nodes_of(*g).len() ==> found is None,
{
    match g.find_edge(NodeIndex::new(source as usize), NodeIndex::new(target as usize)) {
        Some(e) => Some(e.index() as u32),
        None => None,
    }
}

/// `Graph::remove_edge`: takes the edge at `at` out and gives its kind; nothing happens where
/// there is no such edge. The last edge takes the free position, and every walk order drops
/// the edge that left and goes on in the order it had.
#[verifier::external_body]
pub(crate) fn remove_edge(g: &mut Graph<Node, DependencyType, Directed, u32>, at: u32) -> (kind:
    Option<DependencyType>)
    ensures
        nodes_of(*final(g)) == nodes_of(*old(g)),
        walk_order(*final(g)).len() == walk_order(*old(g)).len(),
        at >= edges_of(*old(g)).len() ==> {
            &&& kind is None
            &&& edges_of(*final(g)) == edges_of(*old(g))
            &&& walk_order(*final(g)) == walk_order(*old(g))
        },
        at < edges_of(*old(g)).len() ==> {
            &&& kind == Some(edges_of(*old(g))[at as int].kind)
            &&& edges_of(*final(g)) == without_edge(edges_of(*old(g)), at as int)
            &&& forall|v: int|
                0 <= v < walk_order(*old(g)).len() ==> #[trigger] walk_order(*final(g))[v]
                    == unlinked(walk_order(*old(g))[v], at as int, edges_of(*old(g)).len() - 1)
        },
{
    g.remove_edge(EdgeIndex::new(at as usize))
}

/// `Graph::edges`: the edges that leave `source`, in walk order, each as the position of the
/// vertex it enters and its kind; none where `source` is no vertex.
#[verifier::external_body]
pub(crate) fn edges_from(g: &Graph<Node, DependencyType, Directed, u32>, source: u32) -> (out: Vec<
    (u32, DependencyType),
>)
    ensures
        source >= nodes_of(*g).len() ==> out@.len() == 0,
        source < nodes_of(*g).len() ==> lists_edges(
            out@,
            edges_of(*g),
            walk_order(*g)[source as int],
        ),
{
    g.edges(NodeIndex::new(source as usize)).map(|e| (e.target().index() as u32, *e.weight())).collect()
}

} // verus!
