//! The topology generator: a directed ring over all nodes, then up to seven
//! extra outbound edges per node, drawn at random among the nodes that are
//! neither the node itself nor already one of its outbound neighbours.

use vstd::prelude::*;
use rand::seq::SliceRandom;
use rustworkx_core::generators::InvalidInputError;
use rustworkx_core::petgraph::graph::NodeIndex;
use crate::error::GraphError;

verus! {

/// A directed graph without node or edge payload.
pub type Topology = rustworkx_core::petgraph::graph::Graph<
    (),
    (),
    rustworkx_core::petgraph::Directed,
    u32,
>;

#[verifier::external_type_specification]
#[verifier::external_body]
#[verifier::reject_recursive_types(N)]
#[verifier::reject_recursive_types(E)]
#[verifier::reject_recursive_types(Ty)]
#[verifier::reject_recursive_types(Ix)]
pub struct ExGraph<N, E, Ty, Ix>(rustworkx_core::petgraph::graph::Graph<N, E, Ty, Ix>);

#[verifier::external_type_specification]
#[verifier::external_body]
pub struct ExDirected(rustworkx_core::petgraph::Directed);

#[verifier::external_type_specification]
#[verifier::external_body]
pub struct ExInvalidInputError(InvalidInputError);

/// The number of nodes of a graph.
pub uninterp spec fn topology_nodes(g: Topology) -> nat;

/// The edges of a graph as (source, target) pairs of node indices, in the
/// order in which they were added.
pub uninterp spec fn topology_edges(g: Topology) -> Seq<(int, int)>;

/// The extra outbound edges that each node is offered.
pub const EXTRA_OUTBOUNDS: usize = 7;

/// The largest node count for which every edge still has an index: eight
/// edges per node must fit the graph's 32-bit edge indices.
pub const MAX_NODES: usize = 0x1FFF_FFFF;

/// The node that follows `i` on the ring over `n` nodes.
pub open spec fn successor(i: int, n: int) -> int {
    if i + 1 == n {
        0
    } else {
        i + 1
    }
}

/// The edges of the directed ring over `n` nodes: node `i` points at its successor.
pub open spec fn cycle_edges(n: nat) -> Seq<(int, int)> {
    Seq::new(n, |i: int| (i, successor(i, n as int)))
}

/// How many edges leave `node`.
pub open spec fn out_degree(edges: Seq<(int, int)>, node: int) -> nat
    decreases edges.len(),
{
    if edges.len() == 0 {
        0
    } else {
        out_degree(edges.drop_last(), node) + if edges.last().0 == node {
            1nat
        } else {
            0nat
        }
    }
}

/// The number of extra outbound edges that a node of a graph of `n` nodes
/// receives: seven, or as many as there are nodes besides itself and its
/// successor.
pub open spec fn extra_outbounds(n: nat) -> nat {
    if n < 2 {
        0
    } else if n - 2 < 7 {
        (n - 2) as nat
    } else {
        7
    }
}

/// No edge leads from a node to itself.
pub open spec fn no_self_loops(edges: Seq<(int, int)>) -> bool {
    forall|k: int| 0 <= k < edges.len() ==> (#[trigger] edges[k]).0 != edges[k].1
}

/// Both ends of every edge are nodes of a graph of `n` nodes.
pub open spec fn within_nodes(edges: Seq<(int, int)>, n: nat) -> bool {
    forall|k: int|
        0 <= k < edges.len() ==> 0 <= (#[trigger] edges[k]).0 < n && 0 <= edges[k].1 < n
}

/// The edges start with the ring over `n` nodes.
pub open spec fn starts_with_cycle(edges: Seq<(int, int)>, n: nat) -> bool {
    &&& edges.len() >= n
    &&& forall|k: int| 0 <= k < n ==> #[trigger] edges[k] == (k, successor(k, n as int))
}

/// The edges behind the ring leave nodes below `bound`.
pub open spec fn extras_leave_below(edges: Seq<(int, int)>, n: nat, bound: int) -> bool {
    forall|k: int| n <= k < edges.len() ==> (#[trigger] edges[k]).0 < bound
}

/// The edges behind the ring stand in the order of the nodes that they leave.
pub open spec fn extras_in_node_order(edges: Seq<(int, int)>, n: nat) -> bool {
    forall|j: int, k: int|
        n <= j <= k < edges.len() ==> (#[trigger] edges[j]).0 <= (#[trigger] edges[k]).0
}

/// What holds of the edges of a generated topology of `n` nodes.
///
/// Below two nodes there is no edge. From two nodes on, the edges start with
/// the ring, none is a self-loop, none occurs twice, every node has one ring
/// edge and `extra_outbounds(n)` further outbound edges, and the further
/// edges stand behind the ring, node by node.
pub open spec fn generated(n: nat, edges: Seq<(int, int)>) -> bool {
    if n < 2 {
        edges.len() == 0
    } else {
        &&& starts_with_cycle(edges, n)
        &&& edges.len() == n + n * extra_outbounds(n)
        &&& within_nodes(edges, n)
        &&& no_self_loops(edges)
        &&& edges.no_duplicates()
        &&& extras_in_node_order(edges, n)
        &&& forall|v: int| 0 <= v < n ==> #[trigger] out_degree(edges, v) == 1 + extra_outbounds(n)
    }
}

/// `path` is a walk along the edges: each node is followed by one of its
/// outbound neighbours.
pub open spec fn is_walk(edges: Seq<(int, int)>, path: Seq<int>) -> bool {
    &&& path.len() >= 1
    &&& forall|k: int| 0 <= k < path.len() - 1 ==> edges.contains((#[trigger] path[k], path[k + 1]))
}

/// Some walk along the edges leads from `a` to `b`.
pub open spec fn reachable(edges: Seq<(int, int)>, a: int, b: int) -> bool {
    exists|path: Seq<int>| #[trigger] is_walk(edges, path) && path.first() == a && path.last() == b
}

/// Adding an edge raises the out-degree of its source by one and leaves the
/// other out-degrees as they were.
pub proof fn out_degree_push(edges: Seq<(int, int)>, e: (int, int), node: int)
    ensures
        out_degree(edges.push(e), node) == out_degree(edges, node) + if e.0 == node {
            1nat
        } else {
            0nat
        },
{
    assert(edges.push(e).drop_last() =~= edges);
}

/// Among the first `k` edges of the ring, node `v` has an outbound edge
/// exactly if `v < k`.
proof fn out_degree_of_cycle_prefix(n: nat, k: nat, v: int)
    requires
        k <= n,
    ensures
        out_degree(cycle_edges(n).subrange(0, k as int), v) == if 0 <= v < k {
            1nat
        } else {
            0nat
        },
    decreases k,
{
    let prefix = cycle_edges(n).subrange(0, k as int);
    if k > 0 {
        out_degree_of_cycle_prefix(n, (k - 1) as nat, v);
        assert(prefix.drop_last() =~= cycle_edges(n).subrange(0, k - 1));
        assert(prefix.last() == cycle_edges(n)[k - 1]);
    }
}

/// On the ring every node has exactly one outbound edge.
pub proof fn out_degree_of_cycle(n: nat, v: int)
    requires
        0 <= v < n,
    ensures
        out_degree(cycle_edges(n), v) == 1,
{
    out_degree_of_cycle_prefix(n, n, v);
    assert(cycle_edges(n).subrange(0, n as int) =~= cycle_edges(n));
}

/// In a generated topology of at least two nodes every node is reachable
/// from every other node: the ring alone connects them.
pub proof fn generated_is_strongly_connected(n: nat, edges: Seq<(int, int)>, a: int, b: int)
    requires
        n >= 2,
        generated(n, edges),
        0 <= a < n,
        0 <= b < n,
    ensures
        reachable(edges, a, b),
{
    let steps: int = if a <= b {
        b - a
    } else {
        n - a + b
    };
    let path = Seq::new(
        (steps + 1) as nat,
        |i: int|
            if a + i < n {
                a + i
            } else {
                a + i - n
            },
    );
    assert forall|k: int| 0 <= k < path.len() - 1 implies edges.contains(
        (#[trigger] path[k], path[k + 1]),
    ) by {
        let x = path[k];
        assert(0 <= x < n);
        assert(edges[x] == (x, successor(x, n as int)));
        assert(path[k + 1] == successor(x, n as int));
    }
    assert(is_walk(edges, path));
    assert(path.first() == a);
    assert(path.last() == b);
}

/// In a generated topology of at least two nodes every node has between one
/// and eight outbound edges: the ring edge and `min(7, n - 2)` extra ones.
pub proof fn generated_out_degree_bounds(n: nat, edges: Seq<(int, int)>, v: int)
    requires
        n >= 2,
        generated(n, edges),
        0 <= v < n,
    ensures
        1 <= out_degree(edges, v) <= 8,
        out_degree(edges, v) == 1 + if n - 2 < 7 {
            n - 2
        } else {
            7
        },
        n >= 9 ==> out_degree(edges, v) == 8,
{
}

/// `rustworkx_core::generators::cycle_graph` with a node count, no weights and
/// one direction. For a given count it returns a graph of that many nodes
/// whose edges are those of the ring, in ring order; it panics where a node
/// would get no 32-bit index, which `requires` leaves out.
#[verifier::external_body]
fn cycle_topology(number: usize) -> (r: Result<Topology, InvalidInputError>)
    requires
        number < u32::MAX,
    ensures
        r is Ok,
        r matches Ok(g) ==> topology_nodes(g) == number && topology_edges(g) == cycle_edges(
            number as nat,
        ),
{
    rustworkx_core::generators::cycle_graph(Some(number), None, || {}, || {}, false)
}

/// `petgraph::graph::Graph::new`: a graph without nodes or edges.
#[verifier::external_body]
fn empty_topology() -> (g: Topology)
    ensures
        topology_nodes(g) == 0,
        topology_edges(g) == Seq::<(int, int)>::empty(),
{
    Topology::new()
}

/// `petgraph::graph::Graph::add_node`: one more node and the same edges. It
/// panics when the 32-bit node indices are used up, which `requires` leaves out.
#[verifier::external_body]
fn add_node(g: &mut Topology)
    requires
        topology_nodes(*old(g)) < u32::MAX,
    ensures
        topology_nodes(*final(g)) == topology_nodes(*old(g)) + 1,
        topology_edges(*final(g)) == topology_edges(*old(g)),
{
    g.add_node(());
}

/// `petgraph::graph::Graph::contains_edge`: whether an edge leads from `a` to `b`.
#[verifier::external_body]
fn has_edge(g: &Topology, a: usize, b: usize) -> (r: bool)
    requires
        a < topology_nodes(*g),
        b < topology_nodes(*g),
    ensures
        r == topology_edges(*g).contains((a as int, b as int)),
{
    g.contains_edge(NodeIndex::new(a), NodeIndex::new(b))
}

/// `petgraph::graph::Graph::add_edge`: the edge from `a` to `b` is added behind
/// the others, whether or not it is there already. It panics on a node that
/// the graph does not have and when the 32-bit edge indices are used up,
/// which `requires` leaves out.
#[verifier::external_body]
fn add_edge(g: &mut Topology, a: usize, b: usize)
    requires
        a < topology_nodes(*old(g)),
        b < topology_nodes(*old(g)),
        topology_edges(*old(g)).len() < u32::MAX,
    ensures
        topology_nodes(*final(g)) == topology_nodes(*old(g)),
        topology_edges(*final(g)) == topology_edges(*old(g)).push((a as int, b as int)),
{
    g.add_edge(NodeIndex::new(a), NodeIndex::new(b), ());
}

/// `rand::seq::SliceRandom::choose` on the thread's generator: nothing from an
/// empty list, else one of its items. Which one is left open.
#[verifier::external_body]
fn choose_candidate(candidates: &Vec<usize>) -> (r: Option<usize>)
    ensures
        r is None <==> candidates@.len() == 0,
        r matches Some(x) ==> candidates@.contains(x),
{
    candidates.choose(&mut rand::thread_rng()).copied()
}

/// `petgraph::graph::Graph::node_count`: the number of nodes.
#[verifier::external_body]
fn node_count(g: &Topology) -> (r: usize)
    ensures
        r == topology_nodes(*g),
{
    g.node_count()
}

/// `node` may be connected to `target`: it is another node and no edge leads
/// there yet.
pub open spec fn eligible(edges: Seq<(int, int)>, node: int, target: int) -> bool {
    target != node && !edges.contains((node, target))
}

/// The nodes below `bound` that `node` may be connected to, in rising order.
pub open spec fn candidates_below(edges: Seq<(int, int)>, node: int, bound: nat) -> Seq<usize>
    decreases bound,
{
    if bound == 0 {
        Seq::empty()
    } else {
        let rest = candidates_below(edges, node, (bound - 1) as nat);
        if eligible(edges, node, bound - 1) {
            rest.push((bound - 1) as usize)
        } else {
            rest
        }
    }
}

/// The candidates are eligible nodes below the bound, in strictly rising order.
pub proof fn candidates_are_eligible(edges: Seq<(int, int)>, node: int, bound: nat)
    requires
        bound <= usize::MAX,
    ensures
        candidates_below(edges, node, bound).len() <= bound,
        forall|k: int|
            0 <= k < candidates_below(edges, node, bound).len() ==> (#[trigger] candidates_below(
                edges,
                node,
                bound,
            )[k]) < bound && eligible(edges, node, candidates_below(edges, node, bound)[k] as int),
        forall|j: int, k: int|
            0 <= j < k < candidates_below(edges, node, bound).len() ==> candidates_below(
                edges,
                node,
                bound,
            )[j] < candidates_below(edges, node, bound)[k],
        candidates_below(edges, node, bound).no_duplicates(),
    decreases bound,
{
    if bound > 0 {
        candidates_are_eligible(edges, node, (bound - 1) as nat);
    }
}

/// A node whose only outbound edge leads to its successor on the ring has
/// every node but itself and that successor as a candidate.
pub proof fn candidates_beside_ring(edges: Seq<(int, int)>, node: int, n: nat, bound: nat)
    requires
        2 <= n,
        0 <= node < n,
        bound <= n,
        forall|t: int|
            0 <= t < n ==> (edges.contains((node, t)) <==> t == successor(node, n as int)),
    ensures
        candidates_below(edges, node, bound).len() == bound - (if bound > node {
            1int
        } else {
            0int
        }) - (if bound > successor(node, n as int) {
            1int
        } else {
            0int
        }),
    decreases bound,
{
    if bound > 0 {
        candidates_beside_ring(edges, node, n, (bound - 1) as nat);
    }
}

/// The nodes that `node` may still be connected to: every other node to
/// which no edge leads from it, in rising order.
pub fn collect_candidates(graph: &Topology, node: usize) -> (c: Vec<usize>)
    requires
        node < topology_nodes(*graph),
    ensures
        c@ == candidates_below(topology_edges(*graph), node as int, topology_nodes(*graph)),
{
    let number = node_count(graph);
    let mut c: Vec<usize> = Vec::new();
    let mut target: usize = 0;
    while target < number
        invariant
            node < number,
            target <= number,
            topology_nodes(*graph) == number,
            c@ == candidates_below(topology_edges(*graph), node as int, target as nat),
        decreases number - target,
    {
        if node != target && !has_edge(graph, node, target) {
            c.push(target);
        }
        target += 1;
    }
    c
}

/// Where `x` stands in `s`.
pub open spec fn position(s: Seq<usize>, x: usize) -> int {
    choose|p: int| 0 <= p < s.len() && s[p] == x
}

/// `s` without the item `x`.
pub open spec fn without(s: Seq<usize>, x: usize) -> Seq<usize> {
    s.remove(position(s, x))
}

/// Taking an item out of a list in which nothing occurs twice leaves the
/// other items, each once, and none of them is the item taken.
pub proof fn without_properties(s: Seq<usize>, x: usize)
    requires
        s.no_duplicates(),
        s.contains(x),
    ensures
        without(s, x).no_duplicates(),
        without(s, x).len() == s.len() - 1,
        forall|k: int|
            0 <= k < without(s, x).len() ==> s.contains(#[trigger] without(s, x)[k]) && without(
                s,
                x,
            )[k] != x,
{
    let at = position(s, x);
    let rest = without(s, x);
    assert forall|k: int| 0 <= k < rest.len() implies s.contains(#[trigger] rest[k]) && rest[k]
        != x by {
        if k < at {
            assert(rest[k] == s[k]);
        } else {
            assert(rest[k] == s[k + 1]);
        }
    }
    assert forall|i: int, j: int| 0 <= i < rest.len() && 0 <= j < rest.len() && i != j implies rest[i]
        != rest[j] by {
        let from_i = if i < at {
            i
        } else {
            i + 1
        };
        let from_j = if j < at {
            j
        } else {
            j + 1
        };
        assert(rest[i] == s[from_i] && rest[j] == s[from_j]);
    }
}

/// Takes `target` out of a list in which nothing occurs twice.
fn discard(candidates: &mut Vec<usize>, target: usize)
    requires
        old(candidates)@.no_duplicates(),
        old(candidates)@.contains(target),
    ensures
        final(candidates)@ == without(old(candidates)@, target),
{
    let len: usize = candidates.len();
    let mut at: usize = 0;
    while candidates[at] != target
        invariant
            *candidates == *old(candidates),
            len == candidates@.len(),
            at < len,
            exists|k: int| at <= k < candidates@.len() && candidates@[k] == target,
        decreases candidates@.len() - at,
    {
        at += 1;
    }
    candidates.remove(at);
}

/// Connects `node` to the chosen candidate, if there is one: the edge is
/// added behind the others and the candidate leaves the list. Without a
/// choice nothing changes.
pub fn connect(
    graph: &mut Topology,
    candidates: &mut Vec<usize>,
    node: usize,
    choice: Option<usize>,
)
    requires
        node < topology_nodes(*old(graph)),
        topology_edges(*old(graph)).len() < u32::MAX,
        old(candidates)@.no_duplicates(),
        forall|k: int|
            0 <= k < old(candidates)@.len() ==> (#[trigger] old(candidates)@[k]) < topology_nodes(
                *old(graph),
            ),
        choice matches Some(target) ==> old(candidates)@.contains(target),
    ensures
        topology_nodes(*final(graph)) == topology_nodes(*old(graph)),
        match choice {
            Some(target) => topology_edges(*final(graph)) == topology_edges(*old(graph)).push(
                (node as int, target as int),
            ) && final(candidates)@ == without(old(candidates)@, target),
            None => topology_edges(*final(graph)) == topology_edges(*old(graph))
                && final(candidates)@ == old(candidates)@,
        },
{
    match choice {
        Some(target) => {
            add_edge(graph, node, target);
            discard(candidates, target);
        },
        None => {},
    }
}

/// Builds a topology of `number` nodes.
///
/// Below two nodes the graph has its nodes and no edge. From two nodes on it
/// is the ring plus, for each node in turn, up to seven extra outbound edges
/// to nodes drawn at random among those that are neither the node itself nor
/// one of its outbound neighbours. A node count beyond `MAX_NODES` is a
/// construction failure.
pub fn create_graph(number: usize) -> (r: Result<Topology, GraphError>)
    ensures
        r is Ok <==> number <= MAX_NODES,
        r matches Err(e) ==> e == GraphError::Construction,
        r matches Ok(g) ==> topology_nodes(g) == number && generated(
            number as nat,
            topology_edges(g),
        ),
{
    if number > MAX_NODES {
        return Err(GraphError::Construction);
    }
    if number < 2 {
        let mut lone = empty_topology();
        if number == 1 {
            add_node(&mut lone);
        }
        return Ok(lone);
    }
    let mut graph = match cycle_topology(number) {
        Ok(g) => g,
        Err(_) => {
            return Err(GraphError::Construction);
        },
    };
    let ghost n = number as nat;
    let ghost extra = extra_outbounds(n);
    proof {
        assert forall|v: int| 0 <= v < n implies #[trigger] out_degree(topology_edges(graph), v)
            == 1 by {
            out_degree_of_cycle(n, v);
        }
    }
    let mut node: usize = 0;
    while node < number
        invariant
            2 <= number <= MAX_NODES,
            n == number,
            extra == extra_outbounds(n),
            node <= number,
            topology_nodes(graph) == n,
            starts_with_cycle(topology_edges(graph), n),
            topology_edges(graph).len() == n + node * extra,
            within_nodes(topology_edges(graph), n),
            no_self_loops(topology_edges(graph)),
            topology_edges(graph).no_duplicates(),
            extras_leave_below(topology_edges(graph), n, node as int),
            extras_in_node_order(topology_edges(graph), n),
            forall|v: int|
                0 <= v < n ==> #[trigger] out_degree(topology_edges(graph), v) == 1 + if v < node {
                    extra
                } else {
                    0
                },
        decreases number - node,
    {
        let ghost base = topology_edges(graph);
        proof {
            assert forall|t: int| 0 <= t < number implies (base.contains((node as int, t)) <==> t
                == successor(node as int, number as int)) by {
                assert(base[node as int] == (node as int, successor(node as int, n as int)));
                if base.contains((node as int, t)) {
                    let k = choose|k: int| 0 <= k < base.len() && base[k] == (node as int, t);
                    assert(base[k].0 == node);
                    assert(k < n);
                }
            }
            assert(node * extra <= 7 * n - 7) by (nonlinear_arith)
                requires
                    node + 1 <= n,
                    extra <= 7,
            ;
        }
        let mut candidates = collect_candidates(&graph, node);
        proof {
            candidates_are_eligible(base, node as int, n);
            candidates_beside_ring(base, node as int, n, n);
        }
        let mut round: usize = 0;
        let ghost mut added: nat = 0;
        while round < EXTRA_OUTBOUNDS
            invariant
                2 <= number <= MAX_NODES,
                n == number,
                extra == extra_outbounds(n),
                node < number,
                round <= EXTRA_OUTBOUNDS,
                added == if round <= n - 2 {
                    round as int
                } else {
                    n - 2
                },
                base.len() + 7 <= 8 * n,
                topology_nodes(graph) == n,
                starts_with_cycle(topology_edges(graph), n),
                topology_edges(graph).len() == base.len() + added,
                within_nodes(topology_edges(graph), n),
                no_self_loops(topology_edges(graph)),
                topology_edges(graph).no_duplicates(),
                extras_leave_below(topology_edges(graph), n, node + 1),
                extras_in_node_order(topology_edges(graph), n),
                candidates@.no_duplicates(),
                candidates@.len() == n - 2 - added,
                forall|k: int|
                    0 <= k < candidates@.len() ==> (#[trigger] candidates@[k]) < number
                        && candidates@[k] != node && !topology_edges(graph).contains(
                        (node as int, candidates@[k] as int),
                    ),
                forall|v: int|
                    0 <= v < n ==> #[trigger] out_degree(topology_edges(graph), v) == 1 + if v
                        < node {
                        extra
                    } else if v == node {
                        added
                    } else {
                        0
                    },
            decreases EXTRA_OUTBOUNDS - round,
        {
            let choice = choose_candidate(&candidates);
            let ghost edges = topology_edges(graph);
            let ghost held = candidates@;
            connect(&mut graph, &mut candidates, node, choice);
            proof {
                match choice {
                    Some(target) => {
                        let fresh = (node as int, target as int);
                        let at = position(held, target);
                        assert(held[at] < number && held[at] != node && !edges.contains(fresh));
                        without_properties(held, target);
                        let grown = topology_edges(graph);
                        assert(grown == edges.push(fresh));
                        assert forall|v: int| 0 <= v < n implies #[trigger] out_degree(grown, v)
                            == 1 + if v < node {
                            extra
                        } else if v == node {
                            added + 1
                        } else {
                            0
                        } by {
                            out_degree_push(edges, fresh, v);
                        }
                        assert forall|k: int| 0 <= k < candidates@.len() implies !grown.contains(
                            (node as int, (#[trigger] candidates@[k]) as int),
                        ) by {
                            let c = candidates@[k];
                            assert(held.contains(c) && c != target);
                            let at = choose|j: int| 0 <= j < held.len() && held[j] == c;
                            assert(!edges.contains((node as int, held[at] as int)));
                            if grown.contains((node as int, c as int)) {
                                let j = choose|j: int|
                                    0 <= j < grown.len() && grown[j] == (node as int, c as int);
                                if j < edges.len() {
                                    assert(edges[j] == grown[j]);
                                }
                            }
                        }
                        assert forall|k: int| 0 <= k < candidates@.len() implies (
                        #[trigger] candidates@[k]) < number && candidates@[k] != node by {
                            let c = candidates@[k];
                            assert(held.contains(c));
                            let at = choose|j: int| 0 <= j < held.len() && held[j] == c;
                            assert(held[at] < number);
                        }
                        assert(grown.no_duplicates()) by {
                            assert forall|i: int, j: int|
                                0 <= i < grown.len() && 0 <= j < grown.len() && i != j implies grown[i]
                                != grown[j] by {
                                if i < edges.len() && j < edges.len() {
                                    assert(edges[i] != edges[j]);
                                } else if i < edges.len() {
                                    assert(edges.contains(edges[i]));
                                } else {
                                    assert(edges.contains(edges[j]));
                                }
                            }
                        }
                        added = added + 1;
                    },
                    None => {},
                }
            }
            round += 1;
        }
        proof {
            assert((node + 1) * extra == node * extra + extra) by (nonlinear_arith);
        }
        node += 1;
    }
    Ok(graph)
}

} // verus!
