//! A request brings everything that the requested component requires,
//! however far down, provided that the declarations agree with each other
//! and with what the graph was built from.

use vstd::prelude::*;
use crate::dependency::DependencyView;
use crate::graph::{has_node, lemma_flags_well_formed, position, well_formed};
use crate::insertion::{
    added, extends, inserted, inserted_all, kept, lemma_inserted, lemma_inserted_all,
    lemma_inserted_len, lemma_linked_len, lemma_linked_upto, lemma_position,
    lemma_ready_to_link, linked,
};
use crate::node::{fresh_node, NodeView};

verus! {

/// Whether `x` is `d` or is declared below it: among what `d` requires,
/// directly or further down.
pub open spec fn declares(d: DependencyView, x: DependencyView) -> bool
    decreases d, 0nat,
{
    x == d || declared_among(d.prerequisites, d.prerequisites.len(), x)
}

/// Whether `x` is one of the first `n` declarations of `ds` or is declared
/// below one of them.
pub open spec fn declared_among(ds: Seq<DependencyView>, n: nat, x: DependencyView) -> bool
    decreases ds, n,
{
    if n == 0 || n > ds.len() {
        false
    } else {
        declares(ds[n - 1], x) || declared_among(ds, (n - 1) as nat, x)
    }
}

/// What is declared among the first `n` of a list is declared by one of
/// them.
pub proof fn lemma_declared_among(ds: Seq<DependencyView>, n: nat, x: DependencyView)
    requires
        n <= ds.len(),
    ensures
        declared_among(ds, n, x) <==> exists|j: int| 0 <= j < n && #[trigger] declares(ds[j], x),
    decreases n,
{
    if n > 0 {
        lemma_declared_among(ds, (n - 1) as nat, x);
        if declared_among(ds, n, x) {
            if declares(ds[n - 1], x) {
            } else {
                let j = choose|j: int| 0 <= j < n - 1 && #[trigger] declares(ds[j], x);
                assert(declares(ds[j], x));
            }
        }
        if exists|j: int| 0 <= j < n && #[trigger] declares(ds[j], x) {
            let j = choose|j: int| 0 <= j < n && #[trigger] declares(ds[j], x);
            if j < n - 1 {
                assert(declares(ds[j], x));
            }
        }
    }
}

/// Whether the declarations below `root` agree: a name is declared in one
/// way only.
pub open spec fn consistent(root: DependencyView) -> bool {
    forall|x: DependencyView, y: DependencyView|
        #![trigger declares(root, x), declares(root, y)]
        declares(root, x) && declares(root, y) && x.name == y.name ==> x == y
}

/// Whether node `i` of `g` is the node of the declaration `x`: it bears
/// its name and requires, in declared order, the nodes of what `x`
/// requires.
pub open spec fn stands_for(g: Seq<NodeView>, i: int, x: DependencyView) -> bool {
    &&& g[i].name == x.name
    &&& g[i].dependencies.len() == x.prerequisites.len()
    &&& forall|j: int|
        0 <= j < x.prerequisites.len() ==> has_node(g, (#[trigger] x.prerequisites[j]).name)
            && g[i].dependencies[j] == position(g, x.prerequisites[j].name)
}

/// Whether `g` agrees with the declarations below `root`: every node that
/// bears the name of one of them is the node of that declaration.
pub open spec fn faithful(g: Seq<NodeView>, root: DependencyView) -> bool {
    forall|x: DependencyView, i: int|
        #![trigger declares(root, x), g[i]]
        declares(root, x) && 0 <= i < g.len() && g[i].name == x.name ==> stands_for(g, i, x)
}

/// What is required by a declaration below `root` is declared below `root`.
pub proof fn lemma_declares_prerequisite(root: DependencyView, d: DependencyView, j: int)
    requires
        declares(root, d),
        0 <= j < d.prerequisites.len(),
    ensures
        declares(root, d.prerequisites[j]),
    decreases root,
{
    lemma_declared_among(root.prerequisites, root.prerequisites.len(), d.prerequisites[j]);
    if root == d {
        assert(declares(root.prerequisites[j], d.prerequisites[j]));
    } else {
        lemma_declared_among(root.prerequisites, root.prerequisites.len(), d);
        let k = choose|k: int|
            0 <= k < root.prerequisites.len() && #[trigger] declares(root.prerequisites[k], d);
        lemma_declares_prerequisite(root.prerequisites[k], d, j);
        assert(declares(root.prerequisites[k], d.prerequisites[j]));
    }
}

/// A node that stands for a declaration still does in a graph that
/// extends its own.
proof fn lemma_stands_for_kept(g: Seq<NodeView>, h: Seq<NodeView>, i: int, x: DependencyView)
    requires
        well_formed(g),
        well_formed(h),
        extends(g, h),
        0 <= i < g.len(),
        stands_for(g, i, x),
    ensures
        stands_for(h, i, x),
{
    assert(kept(g, h, i));
    assert forall|j: int| 0 <= j < x.prerequisites.len() implies has_node(
        h,
        (#[trigger] x.prerequisites[j]).name,
    ) && h[i].dependencies[j] == position(h, x.prerequisites[j].name) by {
        let name = x.prerequisites[j].name;
        assert(has_node(g, x.prerequisites[j].name));
        let at = position(g, name);
        assert(kept(g, h, at));
        lemma_position(h, name, at);
    }
}

/// An insertion keeps a graph in agreement with the declarations, however
/// it ends.
pub proof fn lemma_inserted_faithful(
    g: Seq<NodeView>,
    visiting: Seq<Seq<char>>,
    d: DependencyView,
    root: DependencyView,
)
    requires
        well_formed(g),
        inserted(g, visiting, d).graph.len() <= usize::MAX,
        consistent(root),
        faithful(g, root),
        declares(root, d),
    ensures
        faithful(inserted(g, visiting, d).graph, root),
    decreases d, 0nat,
{
    if has_node(g, d.name) {
    } else if visiting.contains(d.name) {
    } else {
        let n = d.prerequisites.len();
        let inner = visiting.push(d.name);
        let r = inserted_all(g, inner, d.prerequisites, n);
        lemma_linked_len(r.graph.push(fresh_node(d.name)), d.prerequisites, n);
        assert forall|j: int| 0 <= j < n implies declares(root, #[trigger] d.prerequisites[j]) by {
            lemma_declares_prerequisite(root, d, j);
        }
        lemma_inserted_all_faithful(g, inner, d.prerequisites, n, root);
        if r.failed is None {
            let h = r.graph;
            let l = linked(h, d);
            let id = h.len() as int;
            lemma_ready_to_link(g, visiting, d);
            lemma_linked_upto(h, d, n);
            assert forall|x: DependencyView, i: int|
                #![trigger declares(root, x), l[i]]
                declares(root, x) && 0 <= i < l.len() && l[i].name == x.name implies stands_for(
                l,
                i,
                x,
            ) by {
                if i == id {
                    assert(declares(root, d));
                    assert(x == d);
                    assert forall|j: int| 0 <= j < n implies has_node(
                        l,
                        (#[trigger] d.prerequisites[j]).name,
                    ) && l[id].dependencies[j] == position(l, d.prerequisites[j].name) by {
                        let name = d.prerequisites[j].name;
                        assert(has_node(h, d.prerequisites[j].name));
                        let at = position(h, name);
                        assert(kept(h, l, at));
                        lemma_position(l, name, at);
                    }
                } else {
                    assert(kept(h, l, i));
                    assert(h[i].name == x.name);
                    assert(stands_for(h, i, x));
                    lemma_stands_for_kept(h, l, i, x);
                }
            }
        }
    }
}

/// A run of insertions keeps a graph in agreement with the declarations,
/// however it ends.
pub proof fn lemma_inserted_all_faithful(
    g: Seq<NodeView>,
    visiting: Seq<Seq<char>>,
    ds: Seq<DependencyView>,
    n: nat,
    root: DependencyView,
)
    requires
        well_formed(g),
        n <= ds.len(),
        inserted_all(g, visiting, ds, n).graph.len() <= usize::MAX,
        consistent(root),
        faithful(g, root),
        forall|j: int| 0 <= j < n ==> declares(root, #[trigger] ds[j]),
    ensures
        faithful(inserted_all(g, visiting, ds, n).graph, root),
    decreases ds, n,
{
    if n > 0 {
        let r = inserted_all(g, visiting, ds, (n - 1) as nat);
        if r.failed is None {
            lemma_inserted_len(r.graph, visiting, ds[n - 1]);
        }
        lemma_inserted_all_faithful(g, visiting, ds, (n - 1) as nat, root);
        if r.failed is None {
            lemma_inserted_all(g, visiting, ds, (n - 1) as nat);
            assert(declares(root, ds[n - 1]));
            lemma_inserted_faithful(r.graph, visiting, ds[n - 1], root);
        }
    }
}

/// In a graph that agrees with the declarations and knows `d`, every
/// declaration below `d` has its node.
pub proof fn lemma_faithful_closed(
    h: Seq<NodeView>,
    root: DependencyView,
    d: DependencyView,
    x: DependencyView,
)
    requires
        faithful(h, root),
        declares(root, d),
        has_node(h, d.name),
        declares(d, x),
    ensures
        has_node(h, x.name),
    decreases d,
{
    if x != d {
        lemma_declared_among(d.prerequisites, d.prerequisites.len(), x);
        let j = choose|j: int|
            0 <= j < d.prerequisites.len() && #[trigger] declares(d.prerequisites[j], x);
        let at = position(h, d.name);
        assert(stands_for(h, at, d));
        assert(has_node(h, d.prerequisites[j].name));
        lemma_declares_prerequisite(root, d, j);
        lemma_faithful_closed(h, root, d.prerequisites[j], x);
    }
}

/// A request that goes through brings the whole of what was asked for:
/// where the declarations below `d` agree with each other and with the
/// graph, the graph then has a node for every declaration below `d`, and
/// each such node requires, in declared order, the nodes of what its
/// declaration requires.
pub proof fn law_request_brings_all_that_is_required(
    g: Seq<NodeView>,
    d: DependencyView,
    x: DependencyView,
)
    requires
        well_formed(g),
        consistent(d),
        faithful(g, d),
        added(g, d).failed is None,
        added(g, d).graph.len() <= usize::MAX,
        declares(d, x),
    ensures
        has_node(added(g, d).graph, x.name),
        stands_for(added(g, d).graph, position(added(g, d).graph, x.name), x),
        faithful(added(g, d).graph, d),
{
    let r = inserted(g, Seq::empty(), d);
    let h = added(g, d).graph;
    lemma_inserted(g, Seq::empty(), d);
    lemma_inserted_faithful(g, Seq::empty(), d, d);
    lemma_flags_well_formed(r.graph, h);
    assert forall|y: DependencyView, i: int|
        #![trigger declares(d, y), h[i]]
        declares(d, y) && 0 <= i < h.len() && h[i].name == y.name implies stands_for(h, i, y) by {
        assert(r.graph[i].name == y.name);
        assert(stands_for(r.graph, i, y));
        assert forall|j: int| 0 <= j < y.prerequisites.len() implies has_node(
            h,
            (#[trigger] y.prerequisites[j]).name,
        ) && h[i].dependencies[j] == position(h, y.prerequisites[j].name) by {
            let name = y.prerequisites[j].name;
            assert(has_node(r.graph, y.prerequisites[j].name));
            let at = position(r.graph, name);
            assert(h[at].name == name);
            lemma_position(h, name, at);
        }
    }
    let top = position(r.graph, d.name);
    assert(h[top].name == d.name);
    assert(declares(d, d));
    lemma_faithful_closed(h, d, d, x);
    let at = position(h, x.name);
    assert(stands_for(h, at, x));
}

/// Whether neither `d` nor anything declared below it bears a name of
/// `above` or the name of one of its own ancestors below `above`.
pub open spec fn free_of(d: DependencyView, above: Seq<Seq<char>>) -> bool
    decreases d, 0nat,
{
    !above.contains(d.name) && all_free_of(
        d.prerequisites,
        d.prerequisites.len(),
        above.push(d.name),
    )
}

/// Whether each of the first `n` declarations of `ds` is free of `above`.
pub open spec fn all_free_of(ds: Seq<DependencyView>, n: nat, above: Seq<Seq<char>>) -> bool
    decreases ds, n,
{
    if n == 0 || n > ds.len() {
        true
    } else {
        all_free_of(ds, (n - 1) as nat, above) && free_of(ds[n - 1], above)
    }
}

/// An insertion of a declaration in which nothing requires itself goes
/// through, whatever the graph holds.
pub proof fn lemma_free_is_inserted(g: Seq<NodeView>, visiting: Seq<Seq<char>>, d: DependencyView)
    requires
        free_of(d, visiting),
    ensures
        inserted(g, visiting, d).failed is None,
    decreases d, 0nat,
{
    if !has_node(g, d.name) {
        lemma_all_free_are_inserted(
            g,
            visiting.push(d.name),
            d.prerequisites,
            d.prerequisites.len(),
        );
    }
}

/// A run of insertions of declarations in which nothing requires itself
/// goes through.
pub proof fn lemma_all_free_are_inserted(
    g: Seq<NodeView>,
    visiting: Seq<Seq<char>>,
    ds: Seq<DependencyView>,
    n: nat,
)
    requires
        n <= ds.len(),
        all_free_of(ds, n, visiting),
    ensures
        inserted_all(g, visiting, ds, n).failed is None,
    decreases ds, n,
{
    if n > 0 {
        lemma_all_free_are_inserted(g, visiting, ds, (n - 1) as nat);
        lemma_free_is_inserted(
            inserted_all(g, visiting, ds, (n - 1) as nat).graph,
            visiting,
            ds[n - 1],
        );
    }
}

/// The number of declarations that `d` is made of.
pub open spec fn size(d: DependencyView) -> nat
    decreases d, 0nat,
{
    1 + total_size(d.prerequisites, d.prerequisites.len())
}

/// The number of declarations that the first `n` of `ds` are made of.
pub open spec fn total_size(ds: Seq<DependencyView>, n: nat) -> nat
    decreases ds, n,
{
    if n == 0 || n > ds.len() {
        0
    } else {
        total_size(ds, (n - 1) as nat) + size(ds[n - 1])
    }
}

/// What a declaration declares is no larger than the declaration.
proof fn lemma_declared_size(d: DependencyView, x: DependencyView)
    requires
        declares(d, x),
    ensures
        size(x) <= size(d),
        x != d ==> size(x) < size(d),
    decreases d, 0nat,
{
    if x != d {
        lemma_declared_among_size(d.prerequisites, d.prerequisites.len(), x);
    }
}

/// What is declared among the first `n` of a list is no larger than they
/// are together.
proof fn lemma_declared_among_size(ds: Seq<DependencyView>, n: nat, x: DependencyView)
    requires
        n <= ds.len(),
        declared_among(ds, n, x),
    ensures
        size(x) <= total_size(ds, n),
    decreases ds, n,
{
    if n > 0 {
        if declares(ds[n - 1], x) {
            lemma_declared_size(ds[n - 1], x);
        } else {
            lemma_declared_among_size(ds, (n - 1) as nat, x);
        }
    }
}

/// Whether every name of `above` is the name of a declaration below `root`
/// that requires `x`, directly or further down.
pub open spec fn are_ancestors(
    root: DependencyView,
    above: Seq<Seq<char>>,
    x: DependencyView,
) -> bool {
    forall|k: int|
        0 <= k < above.len() ==> exists|a: DependencyView|
            declares(root, a) && a.name == #[trigger] above[k] && declared_among(
                a.prerequisites,
                a.prerequisites.len(),
                x,
            )
}

/// Where declarations agree, nothing requires itself: a declaration below
/// `root` is free of the names of its ancestors.
proof fn lemma_consistent_is_free(root: DependencyView, x: DependencyView, above: Seq<Seq<char>>)
    requires
        consistent(root),
        declares(root, x),
        are_ancestors(root, above, x),
    ensures
        free_of(x, above),
    decreases x, x.prerequisites.len() + 1,
{
    if above.contains(x.name) {
        let k = choose|k: int| 0 <= k < above.len() && above[k] == x.name;
        let a = choose|a: DependencyView|
            declares(root, a) && a.name == above[k] && declared_among(
                a.prerequisites,
                a.prerequisites.len(),
                x,
            );
        assert(a == x);
        assert(declares(a, x));
        lemma_declared_among_size(a.prerequisites, a.prerequisites.len(), x);
        assert(false);
    }
    lemma_consistent_all_free(root, x, above, x.prerequisites.len());
}

/// The first `n` of what a declaration below `root` requires are free of
/// the names of the declaration and of its ancestors.
proof fn lemma_consistent_all_free(
    root: DependencyView,
    x: DependencyView,
    above: Seq<Seq<char>>,
    n: nat,
)
    requires
        consistent(root),
        declares(root, x),
        are_ancestors(root, above, x),
        n <= x.prerequisites.len(),
    ensures
        all_free_of(x.prerequisites, n, above.push(x.name)),
    decreases x, n,
{
    if n > 0 {
        lemma_consistent_all_free(root, x, above, (n - 1) as nat);
        let p = x.prerequisites[n - 1];
        let inner = above.push(x.name);
        lemma_declares_prerequisite(root, x, n - 1);
        assert forall|k: int| 0 <= k < inner.len() implies exists|a: DependencyView|
            declares(root, a) && a.name == #[trigger] inner[k] && declared_among(
                a.prerequisites,
                a.prerequisites.len(),
                p,
            ) by {
            if k == above.len() {
                assert(declares(x.prerequisites[n - 1], p));
                lemma_declared_among(x.prerequisites, x.prerequisites.len(), p);
                assert(declared_among(x.prerequisites, x.prerequisites.len(), p));
            } else {
                let a = choose|a: DependencyView|
                    declares(root, a) && a.name == above[k] && declared_among(
                        a.prerequisites,
                        a.prerequisites.len(),
                        x,
                    );
                lemma_declared_among(a.prerequisites, a.prerequisites.len(), x);
                let j = choose|j: int|
                    0 <= j < a.prerequisites.len() && #[trigger] declares(a.prerequisites[j], x);
                lemma_declares_prerequisite(a.prerequisites[j], x, n - 1);
                lemma_declared_among(a.prerequisites, a.prerequisites.len(), p);
                assert(declares(a.prerequisites[j], p));
                assert(declared_among(a.prerequisites, a.prerequisites.len(), p));
            }
        }
        lemma_consistent_is_free(root, p, inner);
    }
}

/// A request for a component whose declarations agree with each other
/// always goes through.
pub proof fn law_consistent_request_goes_through(g: Seq<NodeView>, d: DependencyView)
    requires
        consistent(d),
    ensures
        added(g, d).failed is None,
{
    lemma_consistent_is_free(d, d, Seq::empty());
    lemma_free_is_inserted(g, Seq::empty(), d);
}

/// An empty graph agrees with every declaration.
pub proof fn lemma_empty_faithful(root: DependencyView)
    ensures
        faithful(Seq::<NodeView>::empty(), root),
{
}

/// Asking an empty graph for one component, whose declarations agree with
/// each other, goes through and brings the component with all that it
/// requires, however far down: every declaration below `d` has its node,
/// which requires, in declared order, the nodes of what the declaration
/// requires.
pub proof fn law_first_request_brings_the_closure(d: DependencyView, x: DependencyView)
    requires
        consistent(d),
        added(Seq::empty(), d).graph.len() <= usize::MAX,
        declares(d, x),
    ensures
        added(Seq::empty(), d).failed is None,
        has_node(added(Seq::empty(), d).graph, x.name),
        stands_for(
            added(Seq::empty(), d).graph,
            position(added(Seq::empty(), d).graph, x.name),
            x,
        ),
{
    let g = Seq::<NodeView>::empty();
    lemma_empty_faithful(d);
    law_consistent_request_goes_through(g, d);
    law_request_brings_all_that_is_required(g, d, x);
}

} // verus!

