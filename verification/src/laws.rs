//! What holds of every graph, of every insertion and of every layered view.

use vstd::prelude::*;
use crate::availability::{available, reaches};
use crate::dependency::DependencyView;
use crate::graph::{
    depends_on, has_node, lemma_flags_well_formed, lemma_same_name, position, required_by,
    well_formed,
};
use crate::insertion::{
    added, inserted, inserted_all, kept, lemma_inserted, lemma_inserted_all, lemma_linked_upto,
    lemma_position, linked, promoted, lemma_linked_len, lemma_ready_to_link, lemma_inserted_again,
};
use crate::layering::{ascending, depth, layered, lemma_depth};
use crate::node::{fresh_node, NodeView};

verus! {

/// Asking twice for a component is asking once: whether or not the first
/// request went through, a second one changes no node and no edge and ends
/// as the first did. The graph never knows the component under more than
/// one node, and knows it under one once a request went through.
pub proof fn law_add_node_idempotent(g: Seq<NodeView>, d: DependencyView)
    requires
        well_formed(g),
        added(g, d).graph.len() <= usize::MAX,
    ensures
        added(added(g, d).graph, d) == added(g, d),
        forall|i: int, j: int|
            0 <= i < added(g, d).graph.len() && 0 <= j < added(g, d).graph.len() && added(
                g,
                d,
            ).graph[i].name == d.name && added(g, d).graph[j].name == d.name ==> i == j,
        added(g, d).failed is None ==> has_node(added(g, d).graph, d.name),
{
    let once = added(g, d).graph;
    law_add_node_keeps_well_formed(g, d);
    let r = inserted(g, Seq::empty(), d);
    lemma_inserted(g, Seq::empty(), d);
    assert forall|i: int, j: int|
        0 <= i < once.len() && 0 <= j < once.len() && once[i].name == d.name && once[j].name
            == d.name implies i == j by {
        lemma_same_name(once, i, j);
    }
    if r.failed is None {
        let at = position(r.graph, d.name);
        assert(once[at].name == d.name);
        lemma_position(once, d.name, at);
        assert(inserted(once, Seq::empty(), d).graph == once);
        assert(promoted(once, d.name) =~= once);
    } else {
        lemma_inserted_again(g, Seq::empty(), d);
    }
}

/// A request leaves the graph well-formed, whether or not it went through:
/// no name twice, and every edge at both of its ends.
pub proof fn law_add_node_keeps_well_formed(g: Seq<NodeView>, d: DependencyView)
    requires
        well_formed(g),
        added(g, d).graph.len() <= usize::MAX,
    ensures
        well_formed(added(g, d).graph),
{
    let r = inserted(g, Seq::empty(), d);
    lemma_inserted(g, Seq::empty(), d);
    if r.failed is None {
        lemma_flags_well_formed(r.graph, promoted(r.graph, d.name));
    }
}

/// Every edge is listed at both of its ends: a node requires another
/// exactly when the other lists it among the nodes that require it.
pub proof fn law_edges_reciprocal(g: Seq<NodeView>, n: int, d: int)
    requires
        well_formed(g),
        0 <= n < g.len(),
        0 <= d < g.len(),
    ensures
        depends_on(g, n, d) <==> required_by(g, d, n),
{
}

/// A request keeps what the graph had: every node stays at its id with its
/// name, its own flag and what it requires; what required it still does, in
/// the same order; and a node that was top level stays so.
pub proof fn law_add_node_keeps_nodes(g: Seq<NodeView>, d: DependencyView, i: int)
    requires
        well_formed(g),
        added(g, d).graph.len() <= usize::MAX,
        0 <= i < g.len(),
    ensures
        i < added(g, d).graph.len(),
        added(g, d).graph[i].name == g[i].name,
        added(g, d).graph[i].enabled == g[i].enabled,
        added(g, d).graph[i].dependencies == g[i].dependencies,
        g[i].dependants.is_prefix_of(added(g, d).graph[i].dependants),
        g[i].top_level ==> added(g, d).graph[i].top_level,
{
    let r = inserted(g, Seq::empty(), d);
    lemma_inserted(g, Seq::empty(), d);
    assert(kept(g, r.graph, i));
    assert(g[i].dependants =~= r.graph[i].dependants.subrange(0, g[i].dependants.len() as int));
}

/// A component that the graph did not know gets, by a request that goes
/// through, a top-level node that requires the nodes of its direct
/// prerequisites, in declared order; each of them lists it in turn.
pub proof fn law_new_node_requires_its_prerequisites(g: Seq<NodeView>, d: DependencyView, j: int)
    requires
        well_formed(g),
        !has_node(g, d.name),
        added(g, d).failed is None,
        added(g, d).graph.len() <= usize::MAX,
        0 <= j < d.prerequisites.len(),
    ensures
        ({
            let h = added(g, d).graph;
            let id = position(h, d.name);
            let to = position(h, d.prerequisites[j].name);
            &&& has_node(h, d.name)
            &&& has_node(h, d.prerequisites[j].name)
            &&& h[id].top_level
            &&& h[id].dependencies.len() == d.prerequisites.len()
            &&& h[id].dependencies[j] == to
            &&& depends_on(h, id, to)
            &&& required_by(h, to, id)
        }),
{
    let inner = Seq::<Seq<char>>::empty().push(d.name);
    let n = d.prerequisites.len();
    let r = inserted_all(g, inner, d.prerequisites, n);
    let l = linked(r.graph, d);
    let h = added(g, d).graph;
    lemma_linked_len(r.graph.push(fresh_node(d.name)), d.prerequisites, n);
    lemma_inserted_all(g, inner, d.prerequisites, n);
    lemma_ready_to_link(g, Seq::empty(), d);
    lemma_linked_upto(r.graph, d, n);
    let id = r.graph.len() as int;
    lemma_position(l, d.name, id);
    assert(h =~= l.update(id, NodeView { top_level: true, ..l[id] }));
    lemma_flags_well_formed(l, h);
    lemma_position(h, d.name, id);
    let name = d.prerequisites[j].name;
    assert(has_node(r.graph, d.prerequisites[j].name));
    let to = position(r.graph, name);
    assert(kept(r.graph, l, to));
    lemma_position(h, name, to);
    assert(h[id].dependencies[j] == to);
    assert(depends_on(h, id, to));
}

/// In the layered view a node that requires another stands in an earlier
/// layer than the other: each of the two stands in the layer of its number,
/// and the number of the first is the smaller.
pub proof fn law_layers_order_edges(g: Seq<NodeView>, layers: Seq<Seq<usize>>, n: int, d: int)
    requires
        well_formed(g),
        layered(g, layers),
        0 <= n < g.len(),
        0 <= d < g.len(),
        depends_on(g, n, d),
    ensures
        depth(g, n) < depth(g, d) < layers.len(),
        layers[depth(g, n) as int].contains(n as usize),
        layers[depth(g, d) as int].contains(d as usize),
{
    assert(required_by(g, d, n));
    lemma_depth(g, d);
    let k = choose|k: int| 0 <= k < g[d].dependants.len() && #[trigger] g[d].dependants[k] == n;
    assert(depth(g, g[d].dependants[k] as int) < depth(g, d));
    assert(depth(g, d) < layers.len());
    assert(depth(g, n) < layers.len());
}

/// In the layered view a node stands at one place only.
pub proof fn law_layers_hold_each_node_once(
    g: Seq<NodeView>,
    layers: Seq<Seq<usize>>,
    c1: int,
    j1: int,
    c2: int,
    j2: int,
)
    requires
        well_formed(g),
        layered(g, layers),
        0 <= c1 < layers.len(),
        0 <= j1 < layers[c1].len(),
        0 <= c2 < layers.len(),
        0 <= j2 < layers[c2].len(),
        layers[c1][j1] == layers[c2][j2],
    ensures
        c1 == c2,
        j1 == j2,
{
    assert(depth(g, layers[c1][j1] as int) == c1);
    assert(depth(g, layers[c2][j2] as int) == c2);
    if j1 < j2 {
        assert(layers[c1][j1] < layers[c1][j2]);
    }
    if j2 < j1 {
        assert(layers[c1][j2] < layers[c1][j1]);
    }
}

/// Every node stands in the earliest layer that the order of the edges
/// allows: whatever numbers put every node behind all that require it, no
/// node's number is below its layer.
pub proof fn law_layers_are_earliest(g: Seq<NodeView>, levels: Seq<nat>, i: int)
    requires
        well_formed(g),
        levels.len() == g.len(),
        forall|n: int, d: int|
            0 <= n < g.len() && 0 <= d < g.len() && #[trigger] depends_on(g, n, d)
                ==> levels[n] < levels[d],
        0 <= i < g.len(),
    ensures
        depth(g, i) <= levels[i],
    decreases g.len() - i,
{
    lemma_depth(g, i);
    if depth(g, i) > 0 {
        let j = choose|j: int|
            0 <= j < g[i].dependants.len() && depth(g, (#[trigger] g[i].dependants[j]) as int)
                + 1 == depth(g, i);
        let p = g[i].dependants[j] as int;
        assert(i < p < g.len());
        assert(required_by(g, i, p));
        assert(depends_on(g, p, i));
        law_layers_are_earliest(g, levels, p);
    }
}

/// Two rising lists that hold the same ids agree up to place `i`.
proof fn lemma_rising_lists_agree(a: Seq<usize>, b: Seq<usize>, i: int)
    requires
        ascending(a),
        ascending(b),
        forall|x: usize| a.contains(x) <==> b.contains(x),
        0 <= i < a.len(),
    ensures
        i < b.len(),
        a[i] == b[i],
    decreases i,
{
    if i > 0 {
        lemma_rising_lists_agree(a, b, i - 1);
    }
    assert forall|k: int| 0 <= k < i implies k < b.len() && a[k] == b[k] by {
        lemma_rising_lists_agree(a, b, k);
    }
    assert(a.contains(a[i]));
    assert(b.contains(a[i]));
    let j = choose|j: int| 0 <= j < b.len() && b[j] == a[i];
    if j < i {
        assert(a[j] < a[i]);
    }
    assert(b.contains(b[i]));
    assert(a.contains(b[i]));
    let m = choose|m: int| 0 <= m < a.len() && a[m] == b[i];
    if m < i {
        assert(b[m] < b[i]);
    }
    if i < j {
        assert(b[i] < b[j]);
    }
    if i < m {
        assert(a[i] < a[m]);
    }
}

/// Two rising lists that hold the same ids are one list.
proof fn lemma_rising_lists_equal(a: Seq<usize>, b: Seq<usize>)
    requires
        ascending(a),
        ascending(b),
        forall|x: usize| a.contains(x) <==> b.contains(x),
    ensures
        a == b,
{
    assert forall|i: int| 0 <= i < a.len() implies i < b.len() && #[trigger] a[i] == b[i] by {
        lemma_rising_lists_agree(a, b, i);
    }
    if a.len() > 0 {
        lemma_rising_lists_agree(a, b, a.len() - 1);
    }
    if b.len() > 0 {
        lemma_rising_lists_agree(b, a, b.len() - 1);
    }
    assert(a =~= b);
}

/// A graph has one layered view only: whatever is a layered view of it is
/// the view that `build_dependency_view` gives, at every call.
pub proof fn law_layered_view_is_unique(
    g: Seq<NodeView>,
    first: Seq<Seq<usize>>,
    second: Seq<Seq<usize>>,
)
    requires
        well_formed(g),
        layered(g, first),
        layered(g, second),
    ensures
        first == second,
{
    if first.len() < second.len() {
        let x = second[first.len() as int][0];
        assert(depth(g, x as int) == first.len());
        assert(depth(g, x as int) < first.len());
    }
    if second.len() < first.len() {
        let x = first[second.len() as int][0];
        assert(depth(g, x as int) == second.len());
        assert(depth(g, x as int) < second.len());
    }
    assert forall|c: int| 0 <= c < first.len() implies first[c] == second[c] by {
        let a = first[c];
        let b = second[c];
        assert forall|x: usize| a.contains(x) <==> b.contains(x) by {
            if a.contains(x) {
                let j = choose|j: int| 0 <= j < a.len() && a[j] == x;
                assert(first[c][j] < g.len() && depth(g, first[c][j] as int) == c);
                assert(second[depth(g, x as int) as int].contains(x as int as usize));
            }
            if b.contains(x) {
                let j = choose|j: int| 0 <= j < b.len() && b[j] == x;
                assert(second[c][j] < g.len() && depth(g, second[c][j] as int) == c);
                assert(first[depth(g, x as int) as int].contains(x as int as usize));
            }
        }
        assert(ascending(a)) by {
            assert forall|i: int, j: int| 0 <= i < j < a.len() implies (#[trigger] a[i]) < (
            #[trigger] a[j]) by {
                assert(first[c][i] < first[c][j]);
            }
        }
        assert(ascending(b)) by {
            assert forall|i: int, j: int| 0 <= i < j < b.len() implies (#[trigger] b[i]) < (
            #[trigger] b[j]) by {
                assert(second[c][i] < second[c][j]);
            }
        }
        lemma_rising_lists_equal(a, b);
    }
    assert(first =~= second);
}

/// A node is available exactly when it and everything that it requires,
/// directly or further down, is enabled.
pub proof fn law_available_iff_all_enabled(g: Seq<NodeView>, i: int)
    requires
        well_formed(g),
        0 <= i < g.len(),
    ensures
        available(g, i) <==> forall|m: int| reaches(g, i, m) ==> (#[trigger] g[m]).enabled,
    decreases i,
{
    if available(g, i) {
        assert forall|m: int| reaches(g, i, m) implies (#[trigger] g[m]).enabled by {
            if m != i {
                let k = choose|k: int|
                    0 <= k < g[i].dependencies.len() && 0 <= (#[trigger] g[i].dependencies[k]) < i
                        && reaches(g, g[i].dependencies[k] as int, m);
                let c = g[i].dependencies[k] as int;
                assert(available(g, c));
                law_available_iff_all_enabled(g, c);
            }
        }
    }
    if forall|m: int| reaches(g, i, m) ==> (#[trigger] g[m]).enabled {
        assert(reaches(g, i, i));
        assert(g[i].enabled);
        assert forall|k: int|
            0 <= k < g[i].dependencies.len() && 0 <= (#[trigger] g[i].dependencies[k])
                < i implies available(g, g[i].dependencies[k] as int) by {
            let c = g[i].dependencies[k] as int;
            law_available_iff_all_enabled(g, c);
            assert forall|m: int| reaches(g, c, m) implies (#[trigger] g[m]).enabled by {
                assert(reaches(g, i, m));
            }
        }
    }
}

/// A node that requires nothing is available exactly when its own flag is
/// set.
pub proof fn law_leaf_available_iff_enabled(g: Seq<NodeView>, i: int)
    requires
        0 <= i < g.len(),
        g[i].dependencies.len() == 0,
    ensures
        available(g, i) == g[i].enabled,
{
}

} // verus!
