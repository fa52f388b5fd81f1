//! Adding a component to the graph together with everything that it
//! requires.

use vstd::prelude::*;
use crate::dependency::{declarations, lemma_declarations_upto, Dependency, DependencyView};
use crate::graph::{
    depends_on, has_node, lemma_flags_well_formed, position, required_by, well_formed,
    with_edge, DependencyGraph,
};
use crate::node::{fresh_node, NodeView};
use crate::text::texts;

verus! {

/// What an insertion leaves behind: the graph, and the name of the
/// declaration at which it gave up, if it did.
pub struct Insertion {
    pub graph: Seq<NodeView>,
    pub failed: Option<Seq<char>>,
}

/// `g`, whose last node is new, after that node was linked to the nodes of
/// the first `n` declarations of `ds`, in order.
pub open spec fn linked_upto(g: Seq<NodeView>, ds: Seq<DependencyView>, n: nat) -> Seq<NodeView>
    decreases n,
{
    if n == 0 || n > ds.len() {
        g
    } else {
        let h = linked_upto(g, ds, (n - 1) as nat);
        with_edge(h, h.len() - 1, position(h, ds[n - 1].name))
    }
}

/// `g` with a new node for `d`, linked to the nodes of all that `d` requires.
pub open spec fn linked(g: Seq<NodeView>, d: DependencyView) -> Seq<NodeView> {
    linked_upto(g.push(fresh_node(d.name)), d.prerequisites, d.prerequisites.len())
}

/// The outcome of inserting `d` while the declarations named in `visiting`
/// are being inserted further up.
///
/// A name that the graph knows is left alone. A name that is being inserted
/// further up requires itself, and the insertion gives up there. Otherwise
/// everything that `d` requires is inserted first, in declared order, and
/// then `d` gets its node and its edges.
pub open spec fn inserted(
    g: Seq<NodeView>,
    visiting: Seq<Seq<char>>,
    d: DependencyView,
) -> Insertion
    decreases d, 0nat,
{
    if has_node(g, d.name) {
        Insertion { graph: g, failed: None }
    } else if visiting.contains(d.name) {
        Insertion { graph: g, failed: Some(d.name) }
    } else {
        let r = inserted_all(g, visiting.push(d.name), d.prerequisites, d.prerequisites.len());
        if r.failed is Some {
            r
        } else {
            Insertion { graph: linked(r.graph, d), failed: None }
        }
    }
}

/// The outcome of inserting the first `n` declarations of `ds`, in order, up
/// to the first that fails.
pub open spec fn inserted_all(
    g: Seq<NodeView>,
    visiting: Seq<Seq<char>>,
    ds: Seq<DependencyView>,
    n: nat,
) -> Insertion
    decreases ds, n,
{
    if n == 0 || n > ds.len() {
        Insertion { graph: g, failed: None }
    } else {
        let r = inserted_all(g, visiting, ds, (n - 1) as nat);
        if r.failed is Some {
            r
        } else {
            inserted(r.graph, visiting, ds[n - 1])
        }
    }
}

/// `g` with the node called `name` marked as asked for directly.
pub open spec fn promoted(g: Seq<NodeView>, name: Seq<char>) -> Seq<NodeView> {
    if has_node(g, name) {
        g.update(position(g, name), NodeView { top_level: true, ..g[position(g, name)] })
    } else {
        g
    }
}

/// The outcome of asking for `d` directly: `d` is inserted with all that it
/// requires, and its node, new or not, is marked top level. If the
/// insertion gives up, no node is marked.
pub open spec fn added(g: Seq<NodeView>, d: DependencyView) -> Insertion {
    let r = inserted(g, Seq::empty(), d);
    if r.failed is Some {
        r
    } else {
        Insertion { graph: promoted(r.graph, d.name), failed: None }
    }
}

/// The graph after the first `n` declarations of `ds` were asked for, in
/// order, whether or not some of them failed.
pub open spec fn added_all(g: Seq<NodeView>, ds: Seq<DependencyView>, n: nat) -> Seq<NodeView>
    decreases n,
{
    if n == 0 || n > ds.len() {
        g
    } else {
        added(added_all(g, ds, (n - 1) as nat), ds[n - 1]).graph
    }
}

/// The names at which the first `n` declarations of `ds` gave up, in order.
pub open spec fn failures(g: Seq<NodeView>, ds: Seq<DependencyView>, n: nat) -> Seq<Seq<char>>
    decreases n,
{
    if n == 0 || n > ds.len() {
        Seq::empty()
    } else {
        let before = failures(g, ds, (n - 1) as nat);
        match added(added_all(g, ds, (n - 1) as nat), ds[n - 1]).failed {
            Some(name) => before.push(name),
            None => before,
        }
    }
}

/// Whether node `i` of `g` is still there in `h`: with its name, its flags
/// and what it requires, and required by what required it before, followed
/// only by nodes that `g` did not have.
pub open spec fn kept(g: Seq<NodeView>, h: Seq<NodeView>, i: int) -> bool {
    &&& h[i].name == g[i].name
    &&& h[i].top_level == g[i].top_level
    &&& h[i].enabled == g[i].enabled
    &&& h[i].dependencies == g[i].dependencies
    &&& g[i].dependants.len() <= h[i].dependants.len()
    &&& forall|k: int|
        0 <= k < g[i].dependants.len() ==> #[trigger] h[i].dependants[k] == g[i].dependants[k]
    &&& forall|k: int|
        g[i].dependants.len() <= k < h[i].dependants.len() ==> g.len()
            <= #[trigger] h[i].dependants[k]
}

/// Whether `h` is `g` with nodes added behind it: every node of `g` is kept,
/// and the added nodes are neither enabled nor top level.
pub open spec fn extends(g: Seq<NodeView>, h: Seq<NodeView>) -> bool {
    &&& g.len() <= h.len()
    &&& forall|i: int| 0 <= i < g.len() ==> #[trigger] kept(g, h, i)
    &&& forall|i: int|
        g.len() <= i < h.len() ==> !(#[trigger] h[i]).top_level && !h[i].enabled
}

/// A graph extends itself.
pub proof fn lemma_extends_reflexive(g: Seq<NodeView>)
    ensures
        extends(g, g),
{
    assert forall|i: int| 0 <= i < g.len() implies #[trigger] kept(g, g, i) by {}
}

/// What extends an extension of a graph extends the graph.
pub proof fn lemma_extends_transitive(a: Seq<NodeView>, b: Seq<NodeView>, c: Seq<NodeView>)
    requires
        extends(a, b),
        extends(b, c),
    ensures
        extends(a, c),
{
    assert forall|i: int| 0 <= i < a.len() implies #[trigger] kept(a, c, i) by {
        assert(kept(a, b, i));
        assert(kept(b, c, i));
        assert forall|k: int| 0 <= k < a[i].dependants.len() implies #[trigger] c[i].dependants[k]
            == a[i].dependants[k] by {
            assert(b[i].dependants[k] == a[i].dependants[k]);
        }
        assert forall|k: int|
            a[i].dependants.len() <= k < c[i].dependants.len() implies a.len()
            <= #[trigger] c[i].dependants[k] by {
            if k < b[i].dependants.len() {
                assert(c[i].dependants[k] == b[i].dependants[k]);
            }
        }
    }
    assert forall|i: int| a.len() <= i < c.len() implies !(#[trigger] c[i]).top_level
        && !c[i].enabled by {
        if i < b.len() {
            assert(kept(b, c, i));
            assert(!b[i].top_level && !b[i].enabled);
        }
    }
}

/// In a well-formed graph a name stands at one place only.
pub proof fn lemma_position(g: Seq<NodeView>, name: Seq<char>, i: int)
    requires
        well_formed(g),
        0 <= i < g.len(),
        g[i].name == name,
    ensures
        has_node(g, name),
        position(g, name) == i,
{
    let p = position(g, name);
    assert(0 <= p < g.len() && g[p].name == name);
    if p < i {
        assert(g[p].name != g[i].name);
    }
    if i < p {
        assert(g[i].name != g[p].name);
    }
}

/// A graph that extends another knows every name that the other knew, at
/// the same place.
pub proof fn lemma_extends_has_node(g: Seq<NodeView>, h: Seq<NodeView>, name: Seq<char>)
    requires
        extends(g, h),
        has_node(g, name),
    ensures
        has_node(h, name),
{
    let i = position(g, name);
    assert(kept(g, h, i));
    assert(h[i].name == name);
}

/// A new edge changes its two ends only: one requires one node more, the
/// other is required by one node more.
proof fn lemma_with_edge_nodes(g: Seq<NodeView>, from: int, to: int)
    requires
        0 <= from < g.len(),
        0 <= to < g.len(),
        from != to,
    ensures
        with_edge(g, from, to).len() == g.len(),
        with_edge(g, from, to)[from] == (NodeView {
            dependencies: g[from].dependencies.push(to as usize),
            ..g[from]
        }),
        with_edge(g, from, to)[to] == (NodeView {
            dependants: g[to].dependants.push(from as usize),
            ..g[to]
        }),
        forall|i: int|
            0 <= i < g.len() && i != from && i != to ==> #[trigger] with_edge(g, from, to)[i]
                == g[i],
{
}

/// An edge from a node to one that was added before it keeps a graph
/// well-formed.
pub proof fn lemma_with_edge_well_formed(g: Seq<NodeView>, from: int, to: int)
    requires
        well_formed(g),
        0 <= to < from < g.len(),
    ensures
        well_formed(with_edge(g, from, to)),
{
    let h = with_edge(g, from, to);
    lemma_with_edge_nodes(g, from, to);
    assert forall|i: int, j: int| 0 <= i < j < h.len() implies (#[trigger] h[i]).name != (
    #[trigger] h[j]).name by {
        assert(h[i].name == g[i].name);
        assert(h[j].name == g[j].name);
    }
    assert forall|n: int, k: int|
        0 <= n < h.len() && 0 <= k < h[n].dependencies.len() implies 0 <= (
    #[trigger] h[n].dependencies[k]) < n by {
        if n == from && k == g[from].dependencies.len() {
        } else {
            assert(h[n].dependencies[k] == g[n].dependencies[k]);
        }
    }
    assert forall|d: int, k: int|
        0 <= d < h.len() && 0 <= k < h[d].dependants.len() implies d < (
    #[trigger] h[d].dependants[k]) < h.len() by {
        if d == to && k == g[to].dependants.len() {
        } else {
            assert(h[d].dependants[k] == g[d].dependants[k]);
        }
    }
    assert forall|n: int, d: int| 0 <= n < h.len() && 0 <= d < h.len() implies (
    #[trigger] depends_on(h, n, d) <==> required_by(h, d, n)) by {
        lemma_with_edge_depends_on(g, from, to, n, d);
        lemma_with_edge_required_by(g, from, to, d, n);
        assert(depends_on(g, n, d) <==> required_by(g, d, n));
    }
}

/// With a new edge, a node requires what it required before, and the edge's
/// first end also requires the second.
proof fn lemma_with_edge_depends_on(g: Seq<NodeView>, from: int, to: int, n: int, d: int)
    requires
        0 <= from < g.len(),
        0 <= to < g.len(),
        from != to,
        g.len() <= usize::MAX,
        0 <= n < g.len(),
        0 <= d < g.len(),
    ensures
        depends_on(with_edge(g, from, to), n, d) <==> depends_on(g, n, d) || (n == from && d
            == to),
{
    let h = with_edge(g, from, to);
    lemma_with_edge_nodes(g, from, to);
    if depends_on(h, n, d) {
        let k = choose|k: int|
            0 <= k < h[n].dependencies.len() && #[trigger] h[n].dependencies[k] == d;
        if n == from && k == g[from].dependencies.len() {
        } else {
            assert(g[n].dependencies[k] == d);
        }
    }
    if depends_on(g, n, d) {
        let k = choose|k: int|
            0 <= k < g[n].dependencies.len() && #[trigger] g[n].dependencies[k] == d;
        assert(h[n].dependencies[k] == d);
    }
    if n == from && d == to {
        assert(h[n].dependencies[g[from].dependencies.len() as int] == d);
    }
}

/// With a new edge, a node is required by what required it before, and the
/// edge's second end also by the first.
proof fn lemma_with_edge_required_by(g: Seq<NodeView>, from: int, to: int, d: int, n: int)
    requires
        0 <= from < g.len(),
        0 <= to < g.len(),
        from != to,
        g.len() <= usize::MAX,
        0 <= n < g.len(),
        0 <= d < g.len(),
    ensures
        required_by(with_edge(g, from, to), d, n) <==> required_by(g, d, n) || (n == from && d
            == to),
{
    let h = with_edge(g, from, to);
    lemma_with_edge_nodes(g, from, to);
    if required_by(h, d, n) {
        let k = choose|k: int| 0 <= k < h[d].dependants.len() && #[trigger] h[d].dependants[k] == n;
        if d == to && k == g[to].dependants.len() {
        } else {
            assert(g[d].dependants[k] == n);
        }
    }
    if required_by(g, d, n) {
        let k = choose|k: int| 0 <= k < g[d].dependants.len() && #[trigger] g[d].dependants[k] == n;
        assert(h[d].dependants[k] == n);
    }
    if n == from && d == to {
        assert(h[d].dependants[g[to].dependants.len() as int] == n);
    }
}

/// Whether none of the nodes that `h` has behind those of `g` bears a name
/// of `names`.
pub open spec fn avoids(g: Seq<NodeView>, h: Seq<NodeView>, names: Seq<Seq<char>>) -> bool {
    forall|i: int| g.len() <= i < h.len() ==> !names.contains((#[trigger] h[i]).name)
}

/// Linking adds no node.
pub proof fn lemma_linked_len(g: Seq<NodeView>, ds: Seq<DependencyView>, n: nat)
    ensures
        linked_upto(g, ds, n).len() == g.len(),
    decreases n,
{
    if n == 0 || n > ds.len() {
    } else {
        lemma_linked_len(g, ds, (n - 1) as nat);
    }
}

/// An insertion never takes a node away.
pub proof fn lemma_inserted_len(g: Seq<NodeView>, visiting: Seq<Seq<char>>, d: DependencyView)
    ensures
        g.len() <= inserted(g, visiting, d).graph.len(),
    decreases d, 0nat,
{
    if has_node(g, d.name) {
    } else if visiting.contains(d.name) {
    } else {
        let n = d.prerequisites.len();
        lemma_inserted_all_len(g, visiting.push(d.name), d.prerequisites, n);
        let r = inserted_all(g, visiting.push(d.name), d.prerequisites, n);
        lemma_linked_len(r.graph.push(fresh_node(d.name)), d.prerequisites, n);
    }
}

/// A run of insertions never takes a node away.
pub proof fn lemma_inserted_all_len(
    g: Seq<NodeView>,
    visiting: Seq<Seq<char>>,
    ds: Seq<DependencyView>,
    n: nat,
)
    ensures
        g.len() <= inserted_all(g, visiting, ds, n).graph.len(),
    decreases ds, n,
{
    if n == 0 || n > ds.len() {
    } else {
        lemma_inserted_all_len(g, visiting, ds, (n - 1) as nat);
        let r = inserted_all(g, visiting, ds, (n - 1) as nat);
        if r.failed is None {
            lemma_inserted_len(r.graph, visiting, ds[n - 1]);
        }
    }
}

/// What linking leaves behind: a well-formed graph with one node more, whose
/// new node requires, in declared order, the nodes of what `d` requires.
pub proof fn lemma_linked_upto(h: Seq<NodeView>, d: DependencyView, k: nat)
    requires
        well_formed(h),
        h.len() < usize::MAX,
        !has_node(h, d.name),
        k <= d.prerequisites.len(),
        forall|j: int| 0 <= j < k ==> has_node(h, (#[trigger] d.prerequisites[j]).name),
    ensures
        ({
            let l = linked_upto(h.push(fresh_node(d.name)), d.prerequisites, k);
            &&& well_formed(l)
            &&& l.len() == h.len() + 1
            &&& extends(h, l)
            &&& l[h.len() as int].name == d.name
            &&& l[h.len() as int].dependencies.len() == k
            &&& forall|j: int|
                0 <= j < k ==> #[trigger] l[h.len() as int].dependencies[j] == position(
                    h,
                    d.prerequisites[j].name,
                )
        }),
    decreases k,
{
    let id = h.len() as int;
    let g0 = h.push(fresh_node(d.name));
    if k == 0 {
        assert forall|i: int, j: int| 0 <= i < j < g0.len() implies (#[trigger] g0[i]).name != (
        #[trigger] g0[j]).name by {
            if j == id {
                if g0[i].name == d.name {
                    assert(h[i].name == d.name);
                }
            } else {
                assert(h[i].name != h[j].name);
            }
        }
        assert forall|n: int, c: int| 0 <= n < g0.len() && 0 <= c < g0.len() implies (
        #[trigger] depends_on(g0, n, c) <==> required_by(g0, c, n)) by {
            if n < id && c < id {
                assert(depends_on(h, n, c) <==> required_by(h, c, n));
                assert(g0[n] == h[n]);
                assert(g0[c] == h[c]);
            }
        }
        assert forall|i: int| 0 <= i < h.len() implies #[trigger] kept(h, g0, i) by {}
    } else {
        lemma_linked_upto(h, d, (k - 1) as nat);
        let l = linked_upto(g0, d.prerequisites, (k - 1) as nat);
        let name = d.prerequisites[k - 1].name;
        let t = position(h, name);
        assert(has_node(h, d.prerequisites[k - 1].name));
        assert(kept(h, l, t));
        lemma_position(l, name, t);
        lemma_with_edge_well_formed(l, id, t);
        lemma_with_edge_nodes(l, id, t);
        let m = with_edge(l, id, t);
        assert(m == linked_upto(g0, d.prerequisites, k));
        assert forall|i: int| 0 <= i < h.len() implies #[trigger] kept(h, m, i) by {
            assert(kept(h, l, i));
        }
        assert forall|j: int| 0 <= j < k implies #[trigger] m[id].dependencies[j] == position(
            h,
            d.prerequisites[j].name,
        ) by {
            if j < k - 1 {
                assert(l[id].dependencies[j] == position(h, d.prerequisites[j].name));
            }
        }
    }
}

/// What an insertion leaves behind, however it ends: a well-formed graph
/// that extends the one before and has no new node under a name that is
/// being inserted further up. If it did not give up, the graph knows `d`.
pub proof fn lemma_inserted(g: Seq<NodeView>, visiting: Seq<Seq<char>>, d: DependencyView)
    requires
        well_formed(g),
        inserted(g, visiting, d).graph.len() <= usize::MAX,
    ensures
        well_formed(inserted(g, visiting, d).graph),
        extends(g, inserted(g, visiting, d).graph),
        avoids(g, inserted(g, visiting, d).graph, visiting),
        inserted(g, visiting, d).failed is None ==> has_node(
            inserted(g, visiting, d).graph,
            d.name,
        ),
    decreases d, 0nat,
{
    lemma_extends_reflexive(g);
    if has_node(g, d.name) {
    } else if visiting.contains(d.name) {
    } else {
        let n = d.prerequisites.len();
        let inner = visiting.push(d.name);
        let r = inserted_all(g, inner, d.prerequisites, n);
        lemma_linked_len(r.graph.push(fresh_node(d.name)), d.prerequisites, n);
        lemma_inserted_all(g, inner, d.prerequisites, n);
        assert forall|i: int| g.len() <= i < r.graph.len() implies !visiting.contains(
            (#[trigger] r.graph[i]).name,
        ) by {
            if visiting.contains(r.graph[i].name) {
                let w = choose|w: int| 0 <= w < visiting.len() && visiting[w] == r.graph[i].name;
                assert(inner[w] == r.graph[i].name);
            }
        }
        if r.failed is None {
            if has_node(r.graph, d.name) {
                let i = position(r.graph, d.name);
                if i < g.len() {
                    assert(kept(g, r.graph, i));
                    assert(g[i].name == d.name);
                } else {
                    assert(inner[visiting.len() as int] == d.name);
                }
                assert(false);
            }
            lemma_linked_upto(r.graph, d, n);
            let l = linked(r.graph, d);
            lemma_extends_transitive(g, r.graph, l);
            assert(l[r.graph.len() as int].name == d.name);
            assert forall|i: int| g.len() <= i < l.len() implies !visiting.contains(
                (#[trigger] l[i]).name,
            ) by {
                if i < r.graph.len() {
                    assert(kept(r.graph, l, i));
                }
            }
        }
    }
}

/// What a run of insertions leaves behind, however it ends: as for one
/// insertion. If none gave up, the graph knows each of the `n` declarations.
pub proof fn lemma_inserted_all(
    g: Seq<NodeView>,
    visiting: Seq<Seq<char>>,
    ds: Seq<DependencyView>,
    n: nat,
)
    requires
        well_formed(g),
        n <= ds.len(),
        inserted_all(g, visiting, ds, n).graph.len() <= usize::MAX,
    ensures
        well_formed(inserted_all(g, visiting, ds, n).graph),
        extends(g, inserted_all(g, visiting, ds, n).graph),
        avoids(g, inserted_all(g, visiting, ds, n).graph, visiting),
        inserted_all(g, visiting, ds, n).failed is None ==> forall|j: int|
            0 <= j < n ==> has_node(
                inserted_all(g, visiting, ds, n).graph,
                (#[trigger] ds[j]).name,
            ),
    decreases ds, n,
{
    lemma_extends_reflexive(g);
    if n == 0 {
    } else {
        let r = inserted_all(g, visiting, ds, (n - 1) as nat);
        if r.failed is None {
            lemma_inserted_len(r.graph, visiting, ds[n - 1]);
        }
        lemma_inserted_all(g, visiting, ds, (n - 1) as nat);
        if r.failed is None {
            let m = inserted(r.graph, visiting, ds[n - 1]);
            lemma_inserted(r.graph, visiting, ds[n - 1]);
            lemma_extends_transitive(g, r.graph, m.graph);
            assert forall|i: int| g.len() <= i < m.graph.len() implies !visiting.contains(
                (#[trigger] m.graph[i]).name,
            ) by {
                if i < r.graph.len() {
                    assert(kept(r.graph, m.graph, i));
                }
            }
            if m.failed is None {
                assert forall|j: int| 0 <= j < n implies has_node(
                    m.graph,
                    (#[trigger] ds[j]).name,
                ) by {
                    if j < n - 1 {
                        lemma_extends_has_node(r.graph, m.graph, ds[j].name);
                    }
                }
            }
        }
    }
}

/// Once one insertion of a run has given up, the rest of the run changes
/// nothing.
proof fn lemma_inserted_all_failed(
    g: Seq<NodeView>,
    visiting: Seq<Seq<char>>,
    ds: Seq<DependencyView>,
    k: nat,
    n: nat,
)
    requires
        k <= n <= ds.len(),
        inserted_all(g, visiting, ds, k).failed is Some,
    ensures
        inserted_all(g, visiting, ds, n) == inserted_all(g, visiting, ds, k),
    decreases n,
{
    if k < n {
        lemma_inserted_all_failed(g, visiting, ds, k, (n - 1) as nat);
    }
}

/// After everything that `d` requires was inserted, the graph knows all of
/// it and does not know `d` yet.
pub proof fn lemma_ready_to_link(g: Seq<NodeView>, visiting: Seq<Seq<char>>, d: DependencyView)
    requires
        well_formed(g),
        !has_node(g, d.name),
        inserted_all(g, visiting.push(d.name), d.prerequisites, d.prerequisites.len()).failed
            is None,
        inserted_all(g, visiting.push(d.name), d.prerequisites, d.prerequisites.len()).graph.len()
            <= usize::MAX,
    ensures
        ({
            let r = inserted_all(
                g,
                visiting.push(d.name),
                d.prerequisites,
                d.prerequisites.len(),
            );
            &&& well_formed(r.graph)
            &&& !has_node(r.graph, d.name)
            &&& forall|j: int|
                0 <= j < d.prerequisites.len() ==> has_node(
                    r.graph,
                    (#[trigger] d.prerequisites[j]).name,
                )
        }),
{
    let inner = visiting.push(d.name);
    let r = inserted_all(g, inner, d.prerequisites, d.prerequisites.len());
    lemma_inserted_all(g, inner, d.prerequisites, d.prerequisites.len());
    if has_node(r.graph, d.name) {
        let i = position(r.graph, d.name);
        if i < g.len() {
            assert(kept(g, r.graph, i));
            assert(g[i].name == d.name);
        } else {
            assert(inner[visiting.len() as int] == d.name);
        }
        assert(false);
    }
}

/// Declarations that the graph knows are left alone one after the other.
pub proof fn lemma_known_are_skipped(
    h: Seq<NodeView>,
    visiting: Seq<Seq<char>>,
    ds: Seq<DependencyView>,
    n: nat,
)
    requires
        n <= ds.len(),
        forall|j: int| 0 <= j < n ==> has_node(h, (#[trigger] ds[j]).name),
    ensures
        inserted_all(h, visiting, ds, n) == (Insertion { graph: h, failed: None }),
    decreases n,
{
    if n > 0 {
        lemma_known_are_skipped(h, visiting, ds, (n - 1) as nat);
        assert(has_node(h, ds[n - 1].name));
        assert(inserted(h, visiting, ds[n - 1]) == (Insertion { graph: h, failed: None }));
    }
}

/// An insertion that is made again on what it left behind changes nothing
/// and ends as it did.
pub proof fn lemma_inserted_again(g: Seq<NodeView>, visiting: Seq<Seq<char>>, d: DependencyView)
    requires
        well_formed(g),
        inserted(g, visiting, d).graph.len() <= usize::MAX,
    ensures
        inserted(inserted(g, visiting, d).graph, visiting, d) == inserted(g, visiting, d),
    decreases d, 0nat,
{
    let m = inserted(g, visiting, d);
    if has_node(g, d.name) {
    } else if visiting.contains(d.name) {
    } else {
        let n = d.prerequisites.len();
        let inner = visiting.push(d.name);
        let r = inserted_all(g, inner, d.prerequisites, n);
        lemma_linked_len(r.graph.push(fresh_node(d.name)), d.prerequisites, n);
        if r.failed is None {
            lemma_inserted(g, visiting, d);
        } else {
            lemma_inserted_all(g, inner, d.prerequisites, n);
            if has_node(r.graph, d.name) {
                let i = position(r.graph, d.name);
                if i < g.len() {
                    assert(kept(g, r.graph, i));
                    assert(g[i].name == d.name);
                } else {
                    assert(inner[visiting.len() as int] == d.name);
                }
                assert(false);
            }
            lemma_inserted_all_again(g, inner, d.prerequisites, n);
        }
    }
}

/// A run of insertions that is made again on what it left behind changes
/// nothing and ends as it did.
pub proof fn lemma_inserted_all_again(
    g: Seq<NodeView>,
    visiting: Seq<Seq<char>>,
    ds: Seq<DependencyView>,
    n: nat,
)
    requires
        well_formed(g),
        n <= ds.len(),
        inserted_all(g, visiting, ds, n).graph.len() <= usize::MAX,
    ensures
        inserted_all(inserted_all(g, visiting, ds, n).graph, visiting, ds, n) == inserted_all(
            g,
            visiting,
            ds,
            n,
        ),
    decreases ds, n,
{
    if n > 0 {
        let before = inserted_all(g, visiting, ds, (n - 1) as nat);
        if before.failed is None {
            lemma_inserted_len(before.graph, visiting, ds[n - 1]);
        }
        lemma_inserted_all(g, visiting, ds, (n - 1) as nat);
        if before.failed is Some {
            lemma_inserted_all_again(g, visiting, ds, (n - 1) as nat);
        } else {
            let m = inserted(before.graph, visiting, ds[n - 1]);
            lemma_inserted(before.graph, visiting, ds[n - 1]);
            assert forall|j: int| 0 <= j < n - 1 implies has_node(
                m.graph,
                (#[trigger] ds[j]).name,
            ) by {
                lemma_extends_has_node(before.graph, m.graph, ds[j].name);
            }
            lemma_known_are_skipped(m.graph, visiting, ds, (n - 1) as nat);
            lemma_inserted_again(before.graph, visiting, ds[n - 1]);
        }
    }
}

/// Whether one of `names` is `name`.
fn holds_name(names: &Vec<String>, name: &String) -> (found: bool)
    ensures
        found == texts(names@).contains(name@),
{
    let mut i: usize = 0;
    while i < names.len()
        invariant
            0 <= i <= names.len(),
            forall|j: int| 0 <= j < i ==> texts(names@)[j] != name@,
        decreases names.len() - i,
    {
        if names[i] == *name {
            assert(texts(names@)[i as int] == name@);
            return true;
        }
        i = i + 1;
    }
    false
}

impl DependencyGraph {
    /// Asks for a component: adds `node` with everything that it requires,
    /// each once, and marks its node as top level.
    ///
    /// A component that the graph has already is not added again, and no
    /// edge is: only its node is marked. A node that is added only because
    /// another requires it is not top level. Where a declaration requires,
    /// directly or further down, one of its own name, the insertion gives up
    /// there and returns that name; what was inserted completely up to then
    /// stays.
    pub fn add_node(&mut self, node: &Dependency) -> (r: Result<(), String>)
        ensures
            well_formed(old(self)@),
            well_formed(final(self)@),
            final(self)@ == added(old(self)@, node@).graph,
            match r {
                Ok(()) => added(old(self)@, node@).failed is None,
                Err(name) => added(old(self)@, node@).failed == Some(name@),
            },
    {
        proof {
            use_type_invariant(&*self);
        }
        let mut visiting: Vec<String> = Vec::new();
        assert(texts(visiting@) =~= Seq::<Seq<char>>::empty());
        match self.insert(node, &mut visiting) {
            Err(name) => Err(name),
            Ok(()) => {
                let ghost h = self@;
                proof {
                    lemma_inserted_len(old(self)@, Seq::empty(), node@);
                    lemma_inserted(old(self)@, Seq::empty(), node@);
                }
                let id = self.index_of(node.name.as_str()).unwrap();
                proof {
                    lemma_position(h, node@.name, id as int);
                }
                self.mark_top_level(id);
                proof {
                    lemma_flags_well_formed(h, self@);
                }
                Ok(())
            },
        }
    }

    /// Asks for each of `nodes`, in order, as `add_node` does. A component
    /// that cannot be added does not stop the others: the names at which
    /// the insertions gave up come back together, in order.
    pub fn add_nodes(&mut self, nodes: Vec<Dependency>) -> (r: Result<(), Vec<String>>)
        ensures
            well_formed(old(self)@),
            well_formed(final(self)@),
            final(self)@ == added_all(old(self)@, declarations(nodes@), nodes@.len()),
            match r {
                Ok(()) => failures(old(self)@, declarations(nodes@), nodes@.len()).len() == 0,
                Err(names) => names@.len() > 0 && texts(names@) == failures(
                    old(self)@,
                    declarations(nodes@),
                    nodes@.len(),
                ),
            },
    {
        proof {
            use_type_invariant(&*self);
        }
        let ghost g0 = self@;
        let ghost ds = declarations(nodes@);
        let mut errs: Vec<String> = Vec::new();
        assert(texts(errs@) =~= Seq::<Seq<char>>::empty());
        let mut i: usize = 0;
        while i < nodes.len()
            invariant
                0 <= i <= nodes.len(),
                ds == declarations(nodes@),
                well_formed(self@),
                self@ == added_all(g0, ds, i as nat),
                texts(errs@) == failures(g0, ds, i as nat),
            decreases nodes.len() - i,
        {
            let ghost before = texts(errs@);
            match self.add_node(&nodes[i]) {
                Err(name) => {
                    errs.push(name);
                    assert(texts(errs@) =~= before.push(name@));
                },
                Ok(()) => {},
            }
            i = i + 1;
        }
        if errs.len() == 0 {
            Ok(())
        } else {
            Err(errs)
        }
    }

    /// Inserts `node` and what it requires, while the declarations named in
    /// `visiting` are being inserted further up.
    fn insert(&mut self, node: &Dependency, visiting: &mut Vec<String>) -> (r: Result<(), String>)
        ensures
            well_formed(final(self)@),
            final(self)@ == inserted(old(self)@, texts(old(visiting)@), node@).graph,
            match r {
                Ok(()) => inserted(old(self)@, texts(old(visiting)@), node@).failed is None,
                Err(name) => inserted(old(self)@, texts(old(visiting)@), node@).failed
                    == Some(name@),
            },
            texts(final(visiting)@) == texts(old(visiting)@),
        decreases node,
    {
        proof {
            use_type_invariant(&*self);
        }
        let ghost g0 = self@;
        let ghost outer = texts(visiting@);
        let ghost d = node@;
        let ghost inner = outer.push(d.name);
        proof {
            lemma_declarations_upto(
                node.prerequisites@,
                node.prerequisites@.len(),
            );
        }
        if self.index_of(node.name.as_str()).is_some() {
            return Ok(());
        }
        if holds_name(visiting, &node.name) {
            return Err(node.name.clone());
        }
        visiting.push(node.name.clone());
        assert(texts(visiting@) =~= inner);
        let mut i: usize = 0;
        while i < node.prerequisites.len()
            invariant
                0 <= i <= node.prerequisites.len(),
                d == node@,
                d.prerequisites.len() == node.prerequisites@.len(),
                forall|j: int|
                    0 <= j < d.prerequisites.len() ==> #[trigger] d.prerequisites[j]
                        == node.prerequisites@[j]@,
                texts(visiting@) == inner,
                inner == outer.push(d.name),
                outer == texts(old(visiting)@),
                g0 == old(self)@,
                !has_node(g0, d.name),
                !outer.contains(d.name),
                well_formed(self@),
                inserted_all(g0, inner, d.prerequisites, i as nat) == (Insertion {
                    graph: self@,
                    failed: None,
                }),
            decreases node.prerequisites.len() - i,
        {
            let r = self.insert(&node.prerequisites[i], visiting);
            match r {
                Err(name) => {
                    proof {
                        lemma_inserted_all_failed(
                            g0,
                            inner,
                            d.prerequisites,
                            (i + 1) as nat,
                            d.prerequisites.len(),
                        );
                    }
                    visiting.pop();
                    assert(texts(visiting@) =~= inner.drop_last());
                    assert(inner.drop_last() =~= outer);
                    return Err(name);
                },
                Ok(()) => {},
            }
            i = i + 1;
        }
        visiting.pop();
        assert(texts(visiting@) =~= inner.drop_last());
        assert(inner.drop_last() =~= outer);
        let ghost h = self@;
        proof {
            lemma_ready_to_link(g0, outer, d);
            if h.len() < usize::MAX {
                lemma_linked_upto(h, d, 0);
            }
        }
        let id = self.push_node(node.name.as_str());
        let mut k: usize = 0;
        while k < node.prerequisites.len()
            invariant
                0 <= k <= node.prerequisites.len(),
                d == node@,
                d.prerequisites.len() == node.prerequisites@.len(),
                forall|j: int|
                    0 <= j < d.prerequisites.len() ==> #[trigger] d.prerequisites[j]
                        == node.prerequisites@[j]@,
                well_formed(h),
                h.len() == id,
                id < usize::MAX,
                !has_node(h, d.name),
                forall|j: int|
                    0 <= j < d.prerequisites.len() ==> has_node(
                        h,
                        (#[trigger] d.prerequisites[j]).name,
                    ),
                self@ == linked_upto(h.push(fresh_node(d.name)), d.prerequisites, k as nat),
            decreases node.prerequisites.len() - k,
        {
            let ghost name = d.prerequisites[k as int].name;
            proof {
                lemma_linked_upto(h, d, k as nat);
                let at = position(h, name);
                assert(has_node(h, d.prerequisites[k as int].name));
                assert(kept(h, self@, at));
                lemma_position(self@, name, at);
            }
            let target = self.index_of(node.prerequisites[k].name.as_str()).unwrap();
            proof {
                lemma_position(self@, name, target as int);
                lemma_linked_upto(h, d, (k + 1) as nat);
            }
            self.link(id, target);
            k = k + 1;
        }
        proof {
            lemma_linked_upto(h, d, d.prerequisites.len());
        }
        Ok(())
    }
}

} // verus!
