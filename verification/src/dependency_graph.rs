//! The dependency graph of the module layer, held in a `petgraph`
//! `StableGraph`, and what its contents are.
use vstd::prelude::*;
use petgraph::stable_graph::{NodeIndex, StableGraph};

verus! {

/// Outside graph type: `petgraph`'s stable graph.
#[verifier::external_type_specification]
#[verifier::external_body]
#[verifier::reject_recursive_types(N)]
#[verifier::reject_recursive_types(E)]
#[verifier::reject_recursive_types(Ty)]
#[verifier::reject_recursive_types(Ix)]
pub struct ExStableGraph<N, E, Ty, Ix>(petgraph::stable_graph::StableGraph<N, E, Ty, Ix>);

/// Outside marker type: directed edges.
#[verifier::external_type_specification]
#[verifier::external_body]
pub struct ExDirected(petgraph::Directed);

/// The nodes of a dependency graph, by index.
pub uninterp spec fn graph_nodes(g: StableGraph<(), (), petgraph::Directed, usize>) -> Set<usize>;

/// The edges of a dependency graph, as pairs of node indices. Parallel edges
/// count once.
pub uninterp spec fn graph_edges(g: StableGraph<(), (), petgraph::Directed, usize>) -> Set<(usize, usize)>;

/// Node `a` has at least one outgoing edge.
pub open spec fn has_out_edge(edges: Set<(usize, usize)>, a: usize) -> bool {
    exists|b: usize| edges.contains((a, b))
}

/// `p` walks along edges, at least one step, and returns to where it started.
pub open spec fn is_cycle(edges: Set<(usize, usize)>, p: Seq<usize>) -> bool {
    &&& p.len() >= 2
    &&& p[0] == p[p.len() - 1]
    &&& forall|i: int| 0 <= i < p.len() - 1 ==> #[trigger] edges.contains((p[i], p[i + 1]))
}

/// The edges contain a cycle.
pub open spec fn has_cycle(edges: Set<(usize, usize)>) -> bool {
    exists|p: Seq<usize>| #[trigger] is_cycle(edges, p)
}

/// The edges that remain when node `a` is removed.
pub open spec fn without_node(edges: Set<(usize, usize)>, a: usize) -> Set<(usize, usize)> {
    edges.filter(|e: (usize, usize)| e.0 != a && e.1 != a)
}

/// An empty graph, by `StableGraph::with_capacity`.
#[verifier::external_body]
pub(crate) fn graph_with_capacity(nodes: usize, edges: usize) -> (g: StableGraph<(), (), petgraph::Directed, usize>)
    ensures
        graph_nodes(g) == Set::<usize>::empty(),
        graph_edges(g) == Set::<(usize, usize)>::empty(),
{
    StableGraph::with_capacity(nodes, edges)
}

/// Adds a node, by `StableGraph::add_node`; returns its index, which was not
/// in use. The edges are unchanged. With `usize` indices the graph has no
/// index limit, so the call does not fail.
#[verifier::external_body]
pub(crate) fn graph_add_node(g: &mut StableGraph<(), (), petgraph::Directed, usize>) -> (i: usize)
    ensures
        !graph_nodes(*old(g)).contains(i),
        graph_nodes(*final(g)) == graph_nodes(*old(g)).insert(i),
        graph_edges(*final(g)) == graph_edges(*old(g)),
{
    g.add_node(()).index()
}

/// Adds an edge between two present nodes, by `StableGraph::add_edge`, which
/// panics on a missing node (ruled out here) and, with `usize` indices, on
/// nothing else.
#[verifier::external_body]
pub(crate) fn graph_add_edge(g: &mut StableGraph<(), (), petgraph::Directed, usize>, a: usize, b: usize)
    requires
        graph_nodes(*old(g)).contains(a),
        graph_nodes(*old(g)).contains(b),
    ensures
        graph_nodes(*final(g)) == graph_nodes(*old(g)),
        graph_edges(*final(g)) == graph_edges(*old(g)).insert((a, b)),
{
    g.add_edge(NodeIndex::new(a), NodeIndex::new(b), ());
}

/// Removes a node and every edge that touches it, by
/// `StableGraph::remove_node`; returns whether the node was present.
#[verifier::external_body]
pub(crate) fn graph_remove_node(g: &mut StableGraph<(), (), petgraph::Directed, usize>, a: usize) -> (r: bool)
    ensures
        r == graph_nodes(*old(g)).contains(a),
        graph_nodes(*final(g)) == graph_nodes(*old(g)).remove(a),
        graph_edges(*final(g)) == without_node(graph_edges(*old(g)), a),
{
    g.remove_node(NodeIndex::new(a)).is_some()
}

/// Whether a present node has an outgoing edge, by
/// `StableGraph::edges_directed(a, Outgoing)`.
#[verifier::external_body]
pub(crate) fn graph_has_outgoing(g: &StableGraph<(), (), petgraph::Directed, usize>, a: usize) -> (r: bool)
    ensures
        r == (graph_nodes(*g).contains(a) && has_out_edge(graph_edges(*g), a)),
{
    g.edges_directed(NodeIndex::new(a), petgraph::Direction::Outgoing).next().is_some()
}

/// The nodes without outgoing edges, by `StableGraph::externals(Outgoing)`,
/// each once.
#[verifier::external_body]
pub(crate) fn graph_sinks(g: &StableGraph<(), (), petgraph::Directed, usize>) -> (r: Vec<usize>)
    ensures
        r@.no_duplicates(),
        forall|x: usize| #[trigger] r@.contains(x) <==> (graph_nodes(*g).contains(x) && !has_out_edge(graph_edges(*g), x)),
{
    let mut sinks = Vec::new();
    for n in g.externals(petgraph::Direction::Outgoing) {
        sinks.push(n.index());
    }
    sinks
}

/// Whether the graph contains a cycle, by `petgraph::algo::is_cyclic_directed`.
#[verifier::external_body]
pub(crate) fn graph_is_cyclic(g: &StableGraph<(), (), petgraph::Directed, usize>) -> (r: bool)
    ensures
        r == has_cycle(graph_edges(*g)),
{
    petgraph::algo::is_cyclic_directed(g)
}

/// `p` walks along edges (possibly zero steps).
pub open spec fn is_path(edges: Set<(usize, usize)>, p: Seq<usize>) -> bool {
    &&& p.len() >= 1
    &&& forall|i: int| 0 <= i < p.len() - 1 ==> #[trigger] edges.contains((p[i], p[i + 1]))
}

/// Node `y` can be reached from node `x` along the edges (every node reaches
/// itself).
pub open spec fn reaches(edges: Set<(usize, usize)>, x: usize, y: usize) -> bool {
    exists|p: Seq<usize>| #[trigger] is_path(edges, p) && p[0] == x && p[p.len() - 1] == y
}

/// A walk along `edges.insert((a, b))` from `b` to `a` gives a walk along
/// `edges` from `b` to `a`: cut it at the first visit of `a`.
proof fn lemma_path_to_source(edges: Set<(usize, usize)>, a: usize, b: usize, p: Seq<usize>)
    requires
        is_path(edges.insert((a, b)), p),
        p[p.len() - 1] == a,
    ensures
        reaches(edges, p[0], a),
    decreases p.len(),
{
    if p[0] == a {
        assert(is_path(edges, seq![a]));
    } else {
        let q = p.drop_first();
        assert(is_path(edges.insert((a, b)), q)) by {
            assert forall|i: int| 0 <= i < q.len() - 1 implies #[trigger] edges.insert((a, b)).contains((q[i], q[i + 1])) by {
                let j = i + 1;
                assert(q[i] == p[j] && q[i + 1] == p[j + 1]);
                assert(edges.insert((a, b)).contains((p[j], p[j + 1])));
            }
        }
        lemma_path_to_source(edges, a, b, q);
        let r = choose|r: Seq<usize>| #[trigger] is_path(edges, r) && r[0] == q[0] && r[r.len() - 1] == a;
        assert(edges.insert((a, b)).contains((p[0], p[1])));
        assert(edges.contains((p[0], p[1])));
        let r2 = seq![p[0]] + r;
        assert forall|i: int| 0 <= i < r2.len() - 1 implies #[trigger] edges.contains((r2[i], r2[i + 1])) by {
            if i > 0 {
                let j = i - 1;
                assert(r2[i] == r[j] && r2[i + 1] == r[j + 1]);
                assert(edges.contains((r[j], r[j + 1])));
            } else {
                assert(r2[0] == p[0] && r2[1] == r[0]);
            }
        }
        assert(is_path(edges, r2));
    }
}

/// Adding an edge `a -> b` creates a cycle exactly when the edges already
/// had one or `a` can already be reached from `b`.
pub proof fn lemma_add_edge_cycle(edges: Set<(usize, usize)>, a: usize, b: usize)
    ensures
        has_cycle(edges.insert((a, b))) <==> has_cycle(edges) || reaches(edges, b, a),
{
    let new_edges = edges.insert((a, b));
    if has_cycle(edges) {
        let c = choose|c: Seq<usize>| #[trigger] is_cycle(edges, c);
        assert forall|i: int| 0 <= i < c.len() - 1 implies #[trigger] new_edges.contains((c[i], c[i + 1])) by {
            assert(edges.contains((c[i], c[i + 1])));
        }
        assert(is_cycle(new_edges, c));
    }
    if reaches(edges, b, a) {
        let p = choose|p: Seq<usize>| #[trigger] is_path(edges, p) && p[0] == b && p[p.len() - 1] == a;
        let c = p.push(b);
        assert forall|i: int| 0 <= i < c.len() - 1 implies #[trigger] new_edges.contains((c[i], c[i + 1])) by {
            if i < p.len() - 1 {
                assert(c[i] == p[i] && c[i + 1] == p[i + 1]);
                assert(edges.contains((p[i], p[i + 1])));
            } else {
                assert(c[i] == a && c[i + 1] == b);
            }
        }
        assert(is_cycle(new_edges, c));
    }
    if has_cycle(new_edges) && !has_cycle(edges) {
        let c = choose|c: Seq<usize>| #[trigger] is_cycle(new_edges, c);
        let n = c.len();
        if forall|i: int| 0 <= i < n - 1 ==> #[trigger] edges.contains((c[i], c[i + 1])) {
            assert(is_cycle(edges, c));
        }
        let i = choose|i: int| 0 <= i < n - 1 && !#[trigger] edges.contains((c[i], c[i + 1]));
        assert(new_edges.contains((c[i], c[i + 1])));
        assert(c[i] == a && c[i + 1] == b);
        let p1 = c.subrange(i + 1, n as int);
        let p2 = c.subrange(1, i + 1);
        let p = p1 + p2;
        assert(p[0] == b);
        assert(p[p.len() - 1] == a) by {
            if i == 0 {
                assert(p[p.len() - 1] == c[n - 1]);
            } else {
                assert(p[p.len() - 1] == c[i]);
            }
        }
        assert forall|s: int| 0 <= s < p.len() - 1 implies #[trigger] new_edges.contains((p[s], p[s + 1])) by {
            let l1 = p1.len();
            if s + 1 < l1 {
                let t = i + 1 + s;
                assert(p[s] == c[t] && p[s + 1] == c[t + 1]);
                assert(new_edges.contains((c[t], c[t + 1])));
            } else if s + 1 == l1 {
                assert(p[s] == c[n - 1]);
                assert(p[s + 1] == c[1]);
                assert(new_edges.contains((c[0], c[1])));
            } else {
                let t = 1 + s - l1;
                assert(p[s] == c[t] && p[s + 1] == c[t + 1]);
                assert(new_edges.contains((c[t], c[t + 1])));
            }
        }
        lemma_path_to_source(edges, a, b, p);
    }
}

/// Adding an edge `a -> b` into a node `b` that has no outgoing edge (and is
/// not `a`) does not create a cycle.
pub proof fn lemma_edge_into_sink_keeps_acyclic(edges: Set<(usize, usize)>, a: usize, b: usize)
    requires
        !has_cycle(edges),
        a != b,
        !has_out_edge(edges, b),
    ensures
        !has_cycle(edges.insert((a, b))),
{
    let new_edges = edges.insert((a, b));
    if has_cycle(new_edges) {
        let p = choose|p: Seq<usize>| #[trigger] is_cycle(new_edges, p);
        if exists|k: int| 0 <= k < p.len() - 1 && (#[trigger] p[k], p[k + 1]) == (a, b) {
            let k = choose|k: int| 0 <= k < p.len() - 1 && (#[trigger] p[k], p[k + 1]) == (a, b);
            let next: int = if k + 1 < p.len() - 1 { k + 1 } else { 0 };
            assert(p[next] == b);
            assert(new_edges.contains((p[next], p[next + 1])));
            if (p[next], p[next + 1]) == (a, b) {
                assert(false);
            } else {
                assert(edges.contains((b, p[next + 1])));
                assert(has_out_edge(edges, b));
            }
        } else {
            assert forall|i: int| 0 <= i < p.len() - 1 implies #[trigger] edges.contains((p[i], p[i + 1])) by {
                assert(new_edges.contains((p[i], p[i + 1])));
                assert((p[i], p[i + 1]) != (a, b));
            }
            assert(is_cycle(edges, p));
        }
    }
}

/// Dropping edges never creates a cycle.
pub proof fn lemma_sub_edges_keep_acyclic(edges: Set<(usize, usize)>, sub: Set<(usize, usize)>)
    requires
        !has_cycle(edges),
        sub.subset_of(edges),
    ensures
        !has_cycle(sub),
{
    if has_cycle(sub) {
        let p = choose|p: Seq<usize>| #[trigger] is_cycle(sub, p);
        assert forall|i: int| 0 <= i < p.len() - 1 implies #[trigger] edges.contains((p[i], p[i + 1])) by {
            assert(sub.contains((p[i], p[i + 1])));
        }
        assert(is_cycle(edges, p));
    }
}

/// Removing a node never creates a cycle.
pub proof fn lemma_remove_node_keeps_acyclic(edges: Set<(usize, usize)>, a: usize)
    requires
        !has_cycle(edges),
    ensures
        !has_cycle(without_node(edges, a)),
{
    lemma_sub_edges_keep_acyclic(edges, without_node(edges, a));
}

/// Some successor of `x` along the edges.
spec fn successor(edges: Set<(usize, usize)>, x: usize) -> usize {
    choose|y: usize| edges.contains((x, y))
}

/// The walk of `n` steps from `x` that always moves to [successor].
spec fn walk(edges: Set<(usize, usize)>, x: usize, n: nat) -> Seq<usize>
    decreases n,
{
    if n == 0 {
        seq![x]
    } else {
        let w = walk(edges, x, (n - 1) as nat);
        w.push(successor(edges, w.last()))
    }
}

/// Where every node of `nodes` has an outgoing edge and every edge ends in
/// `nodes`, the walk from a node of `nodes` stays in `nodes` and follows edges.
proof fn lemma_walk(nodes: Set<usize>, edges: Set<(usize, usize)>, x: usize, n: nat)
    requires
        nodes.contains(x),
        forall|y: usize| nodes.contains(y) ==> #[trigger] has_out_edge(edges, y),
        forall|e: (usize, usize)| #[trigger] edges.contains(e) ==> nodes.contains(e.1),
    ensures
        walk(edges, x, n).len() == n + 1,
        walk(edges, x, n)[0] == x,
        forall|i: int| 0 <= i <= n ==> nodes.contains(#[trigger] walk(edges, x, n)[i]),
        forall|i: int| 0 <= i < n ==> #[trigger] edges.contains((walk(edges, x, n)[i], walk(edges, x, n)[i + 1])),
    decreases n,
{
    if n > 0 {
        lemma_walk(nodes, edges, x, (n - 1) as nat);
        let w = walk(edges, x, (n - 1) as nat);
        let last = w.last();
        assert(nodes.contains(w[n - 1]));
        assert(has_out_edge(edges, last));
        let y = successor(edges, last);
        assert(edges.contains((last, y)));
        let w2 = walk(edges, x, n);
        assert(w2 == w.push(y));
        assert forall|i: int| 0 <= i <= n implies nodes.contains(#[trigger] w2[i]) by {
            if i < n {
                assert(w2[i] == w[i]);
            } else {
                assert(w2[i] == y);
            }
        }
        assert forall|i: int| 0 <= i < n implies #[trigger] edges.contains((w2[i], w2[i + 1])) by {
            if i < n - 1 {
                assert(w2[i] == w[i] && w2[i + 1] == w[i + 1]);
            } else {
                assert(w2[i] == last && w2[i + 1] == y);
            }
        }
    }
}

/// In a finite set of nodes where every node has an outgoing edge and every
/// edge ends in the set, the edges contain a cycle.
pub proof fn lemma_no_sink_means_cycle(nodes: Set<usize>, edges: Set<(usize, usize)>, x: usize)
    requires
        nodes.finite(),
        nodes.contains(x),
        forall|y: usize| nodes.contains(y) ==> #[trigger] has_out_edge(edges, y),
        forall|e: (usize, usize)| #[trigger] edges.contains(e) ==> nodes.contains(e.1),
    ensures
        has_cycle(edges),
{
    let n = nodes.len();
    lemma_walk(nodes, edges, x, n);
    let w = walk(edges, x, n);
    assert(!w.no_duplicates()) by {
        assert forall|v: usize| w.to_set().contains(v) implies nodes.contains(v) by {
            assert(w.contains(v));
            let k = choose|k: int| 0 <= k < w.len() && w[k] == v;
            assert(nodes.contains(w[k]));
        }
        assert(w.to_set().subset_of(nodes));
        vstd::set_lib::lemma_len_subset(w.to_set(), nodes);
        if w.no_duplicates() {
            w.unique_seq_to_set();
        }
    }
    let (i, j) = choose|i: int, j: int| 0 <= i < w.len() && 0 <= j < w.len() && i != j && w[i] == w[j];
    let (lo, hi) = if i < j { (i, j) } else { (j, i) };
    let p = w.subrange(lo, hi + 1);
    assert(p.len() >= 2);
    assert(p[0] == p[p.len() - 1]);
    assert forall|k: int| 0 <= k < p.len() - 1 implies #[trigger] edges.contains((p[k], p[k + 1])) by {
        assert(p[k] == w[lo + k] && p[k + 1] == w[lo + k + 1]);
    }
    assert(is_cycle(edges, p));
}

/// Node `y` lies on a cycle of the edges.
pub open spec fn on_cycle(edges: Set<(usize, usize)>, y: usize) -> bool {
    exists|c: Seq<usize>| #[trigger] is_cycle(edges, c) && c.contains(y)
}

/// From node `x` a node on a cycle can be reached.
pub open spec fn reaches_cycle(edges: Set<(usize, usize)>, x: usize) -> bool {
    exists|y: usize| #[trigger] reaches(edges, x, y) && on_cycle(edges, y)
}

/// A node that reaches a cycle has a successor that reaches a cycle.
pub proof fn lemma_reaches_cycle_step(edges: Set<(usize, usize)>, x: usize)
    requires
        reaches_cycle(edges, x),
    ensures
        exists|z: usize| #[trigger] edges.contains((x, z)) && reaches_cycle(edges, z),
{
    let y = choose|y: usize| #[trigger] reaches(edges, x, y) && on_cycle(edges, y);
    let p = choose|p: Seq<usize>| #[trigger] is_path(edges, p) && p[0] == x && p[p.len() - 1] == y;
    if p.len() >= 2 {
        let z = p[1];
        let j0: int = 0;
        assert(edges.contains((p[j0], p[j0 + 1])));
        let q = p.drop_first();
        assert forall|i: int| 0 <= i < q.len() - 1 implies #[trigger] edges.contains((q[i], q[i + 1])) by {
            let j = i + 1;
            assert(q[i] == p[j] && q[i + 1] == p[j + 1]);
            assert(edges.contains((p[j], p[j + 1])));
        }
        assert(is_path(edges, q));
        assert(reaches(edges, z, y));
        assert(reaches_cycle(edges, z));
    } else {
        assert(x == y);
        let c = choose|c: Seq<usize>| #[trigger] is_cycle(edges, c) && c.contains(y);
        let i = choose|i: int| 0 <= i < c.len() && c[i] == y;
        let i2: int = if i < c.len() - 1 { i } else { 0 };
        assert(c[i2] == x);
        let z = c[i2 + 1];
        assert(edges.contains((c[i2], c[i2 + 1])));
        assert(c.contains(z));
        assert(on_cycle(edges, z));
        assert(is_path(edges, seq![z]));
        assert(reaches(edges, z, z));
        assert(reaches_cycle(edges, z));
    }
}

/// Reaching a cycle along fewer edges means reaching one along more.
pub proof fn lemma_reaches_cycle_mono(sub: Set<(usize, usize)>, edges: Set<(usize, usize)>, x: usize)
    requires
        sub.subset_of(edges),
        reaches_cycle(sub, x),
    ensures
        reaches_cycle(edges, x),
{
    let y = choose|y: usize| #[trigger] reaches(sub, x, y) && on_cycle(sub, y);
    let p = choose|p: Seq<usize>| #[trigger] is_path(sub, p) && p[0] == x && p[p.len() - 1] == y;
    assert forall|i: int| 0 <= i < p.len() - 1 implies #[trigger] edges.contains((p[i], p[i + 1])) by {
        assert(sub.contains((p[i], p[i + 1])));
    }
    assert(is_path(edges, p));
    let c = choose|c: Seq<usize>| #[trigger] is_cycle(sub, c) && c.contains(y);
    assert forall|i: int| 0 <= i < c.len() - 1 implies #[trigger] edges.contains((c[i], c[i + 1])) by {
        assert(sub.contains((c[i], c[i + 1])));
    }
    assert(is_cycle(edges, c));
    assert(on_cycle(edges, y));
    assert(reaches(edges, x, y));
}

/// In a finite set of nodes where every node has an outgoing edge and every
/// edge ends in the set, every node of the set reaches a cycle.
pub proof fn lemma_no_sink_reaches_cycle(nodes: Set<usize>, edges: Set<(usize, usize)>, x: usize)
    requires
        nodes.finite(),
        nodes.contains(x),
        forall|y: usize| nodes.contains(y) ==> #[trigger] has_out_edge(edges, y),
        forall|e: (usize, usize)| #[trigger] edges.contains(e) ==> nodes.contains(e.1),
    ensures
        reaches_cycle(edges, x),
{
    let n = nodes.len();
    lemma_walk(nodes, edges, x, n);
    let w = walk(edges, x, n);
    assert(!w.no_duplicates()) by {
        assert forall|v: usize| w.to_set().contains(v) implies nodes.contains(v) by {
            assert(w.contains(v));
            let k = choose|k: int| 0 <= k < w.len() && w[k] == v;
            assert(nodes.contains(w[k]));
        }
        assert(w.to_set().subset_of(nodes));
        vstd::set_lib::lemma_len_subset(w.to_set(), nodes);
        if w.no_duplicates() {
            w.unique_seq_to_set();
        }
    }
    let (i, j) = choose|i: int, j: int| 0 <= i < w.len() && 0 <= j < w.len() && i != j && w[i] == w[j];
    let (lo, hi) = if i < j { (i, j) } else { (j, i) };
    let c = w.subrange(lo, hi + 1);
    assert forall|k: int| 0 <= k < c.len() - 1 implies #[trigger] edges.contains((c[k], c[k + 1])) by {
        assert(c[k] == w[lo + k] && c[k + 1] == w[lo + k + 1]);
    }
    assert(is_cycle(edges, c));
    assert(c.contains(w[lo])) by {
        assert(c[0] == w[lo]);
    }
    assert(on_cycle(edges, w[lo]));
    let p = w.subrange(0, lo + 1);
    assert forall|k: int| 0 <= k < p.len() - 1 implies #[trigger] edges.contains((p[k], p[k + 1])) by {
        assert(p[k] == w[k] && p[k + 1] == w[k + 1]);
    }
    assert(is_path(edges, p));
    assert(p[0] == x);
    assert(reaches(edges, x, w[lo]));
}

/// The edges whose two ends both lie in `nodes`.
pub open spec fn restrict(edges: Set<(usize, usize)>, nodes: Set<usize>) -> Set<(usize, usize)> {
    edges.filter(|e: (usize, usize)| nodes.contains(e.0) && nodes.contains(e.1))
}

} // verus!
