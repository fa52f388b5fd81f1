//! The layered view of a graph: what nothing requires comes first, and every
//! other node comes one layer behind the last of the nodes that require it.

use vstd::prelude::*;
use crate::graph::{well_formed, DependencyGraph};
use crate::node::NodeView;

verus! {

/// The layer of node `i`: 0 if nothing requires it, otherwise one more than
/// the highest layer among the nodes that require it.
pub open spec fn depth(g: Seq<NodeView>, i: int) -> nat
    decreases g.len() - i, g[i].dependants.len() + 1,
{
    depth_upto(g, i, g[i].dependants.len())
}

/// The least layer that lies behind the first `k` of the nodes that require
/// node `i`.
pub open spec fn depth_upto(g: Seq<NodeView>, i: int, k: nat) -> nat
    decreases g.len() - i, k,
{
    if k == 0 || k > g[i].dependants.len() {
        0
    } else {
        let p = g[i].dependants[k - 1] as int;
        let rest = depth_upto(g, i, (k - 1) as nat);
        if i < p < g.len() && depth(g, p) + 1 > rest {
            depth(g, p) + 1
        } else {
            rest
        }
    }
}

/// `depth_upto` is the least bound that lies above the layers of the first
/// `k` dependants.
proof fn lemma_depth_upto(g: Seq<NodeView>, i: int, k: nat)
    requires
        well_formed(g),
        0 <= i < g.len(),
        k <= g[i].dependants.len(),
    ensures
        forall|j: int|
            0 <= j < k ==> depth(g, (#[trigger] g[i].dependants[j]) as int) < depth_upto(g, i, k),
        depth_upto(g, i, k) > 0 ==> exists|j: int|
            0 <= j < k && depth(g, (#[trigger] g[i].dependants[j]) as int) + 1 == depth_upto(
                g,
                i,
                k,
            ),
    decreases k,
{
    if k > 0 {
        lemma_depth_upto(g, i, (k - 1) as nat);
        let p = g[i].dependants[k - 1];
        assert(i < p < g.len());
        let rest = depth_upto(g, i, (k - 1) as nat);
        if depth(g, p as int) + 1 > rest {
        } else if rest > 0 {
            let j = choose|j: int|
                0 <= j < k - 1 && depth(g, (#[trigger] g[i].dependants[j]) as int) + 1 == rest;
            assert(depth(g, g[i].dependants[j] as int) + 1 == depth_upto(g, i, k));
        }
    }
}

/// A node lies behind every node that requires it, and directly behind one
/// of them unless nothing requires it.
pub proof fn lemma_depth(g: Seq<NodeView>, i: int)
    requires
        well_formed(g),
        0 <= i < g.len(),
    ensures
        forall|j: int|
            0 <= j < g[i].dependants.len() ==> depth(g, (#[trigger] g[i].dependants[j]) as int)
                < depth(g, i),
        depth(g, i) > 0 ==> exists|j: int|
            0 <= j < g[i].dependants.len() && depth(g, (#[trigger] g[i].dependants[j]) as int)
                + 1 == depth(g, i),
        g[i].dependants.len() == 0 ==> depth(g, i) == 0,
{
    lemma_depth_upto(g, i, g[i].dependants.len());
}

/// A graph of `n` nodes has fewer than `n` layers behind the first: node `i`
/// lies in a layer below `n - i`.
pub proof fn lemma_depth_bound(g: Seq<NodeView>, i: int)
    requires
        well_formed(g),
        0 <= i < g.len(),
    ensures
        depth(g, i) < g.len() - i,
    decreases g.len() - i,
{
    lemma_depth(g, i);
    if depth(g, i) > 0 {
        let j = choose|j: int|
            0 <= j < g[i].dependants.len() && depth(g, (#[trigger] g[i].dependants[j]) as int)
                + 1 == depth(g, i);
        let p = g[i].dependants[j] as int;
        assert(i < p < g.len());
        lemma_depth_bound(g, p);
    }
}

/// Below the layer of a node no layer is empty.
pub proof fn lemma_depth_inhabited(g: Seq<NodeView>, i: int, k: nat)
    requires
        well_formed(g),
        0 <= i < g.len(),
        k <= depth(g, i),
    ensures
        exists|x: int| 0 <= x < g.len() && #[trigger] depth(g, x) == k,
    decreases g.len() - i,
{
    if k == depth(g, i) {
    } else {
        lemma_depth(g, i);
        let j = choose|j: int|
            0 <= j < g[i].dependants.len() && depth(g, (#[trigger] g[i].dependants[j]) as int)
                + 1 == depth(g, i);
        let p = g[i].dependants[j] as int;
        assert(i < p < g.len());
        lemma_depth_inhabited(g, p, k);
    }
}

/// The layers as a mathematical value.
pub open spec fn layers_of(columns: Seq<Vec<usize>>) -> Seq<Seq<usize>> {
    Seq::new(columns.len(), |c: int| columns[c]@)
}

/// Whether `layers` is the layered view of `g`: every layer holds, in
/// rising order of id and each once, exactly the nodes whose layer it is,
/// and no layer is empty.
pub open spec fn layered(g: Seq<NodeView>, layers: Seq<Seq<usize>>) -> bool {
    &&& forall|c: int, j: int|
        0 <= c < layers.len() && 0 <= j < layers[c].len() ==> (#[trigger] layers[c][j]) < g.len()
            && depth(g, layers[c][j] as int) == c
    &&& forall|i: int|
        0 <= i < g.len() ==> (#[trigger] depth(g, i)) < layers.len() && layers[depth(
            g,
            i,
        ) as int].contains(i as usize)
    &&& forall|c: int, a: int, b: int|
        0 <= c < layers.len() && 0 <= a < b < layers[c].len() ==> (#[trigger] layers[c][a]) < (
        #[trigger] layers[c][b])
    &&& forall|c: int| 0 <= c < layers.len() ==> (#[trigger] layers[c]).len() > 0
}

/// Whether the ids of `s` rise strictly.
pub open spec fn ascending(s: Seq<usize>) -> bool {
    forall|a: int, b: int| 0 <= a < b < s.len() ==> (#[trigger] s[a]) < (#[trigger] s[b])
}

/// Whether `layer_of` records exactly the nodes of the layers below `k`,
/// each with its layer.
spec fn placed_below(g: Seq<NodeView>, layer_of: Seq<Option<usize>>, k: int) -> bool {
    &&& layer_of.len() == g.len()
    &&& forall|i: int|
        0 <= i < g.len() ==> #[trigger] layer_of[i] == (if depth(g, i) < k {
            Some(depth(g, i) as usize)
        } else {
            None
        })
}

/// Whether `waiting` holds, in rising order, exactly the nodes of layer `k`
/// and of the layers behind it.
spec fn waiting_from(g: Seq<NodeView>, waiting: Seq<usize>, k: int) -> bool {
    &&& ascending(waiting)
    &&& forall|m: int|
        0 <= m < waiting.len() ==> (#[trigger] waiting[m]) < g.len() && depth(
            g,
            waiting[m] as int,
        ) >= k
    &&& forall|i: int|
        0 <= i < g.len() && (#[trigger] depth(g, i)) >= k ==> waiting.contains(i as usize)
}

/// Whether `layers` are the first layers of the layered view of `g`.
spec fn layered_below(g: Seq<NodeView>, layers: Seq<Seq<usize>>) -> bool {
    &&& forall|c: int, j: int|
        0 <= c < layers.len() && 0 <= j < layers[c].len() ==> (#[trigger] layers[c][j]) < g.len()
            && depth(g, layers[c][j] as int) == c
    &&& forall|i: int|
        0 <= i < g.len() && (#[trigger] depth(g, i)) < layers.len() ==> layers[depth(
            g,
            i,
        ) as int].contains(i as usize)
    &&& forall|c: int| 0 <= c < layers.len() ==> ascending(#[trigger] layers[c])
    &&& forall|c: int| 0 <= c < layers.len() ==> (#[trigger] layers[c]).len() > 0
}

impl DependencyGraph {
    /// Whether every node that requires `item` stands in a layer before
    /// layer `k`.
    fn requirers_placed(&self, item: usize, layer_of: &Vec<Option<usize>>, k: usize) -> (placed:
        bool)
        requires
            item < self@.len(),
            layer_of@.len() == self@.len(),
            forall|p: int|
                0 <= p < self@.len() ==> ((#[trigger] layer_of@[p] matches Some(c) && c < k)
                    <==> depth(self@, p) < k),
        ensures
            placed <==> depth(self@, item as int) <= k,
    {
        proof {
            use_type_invariant(self);
        }
        let ghost g = self@;
        let parents = self.node(item).unwrap().dependants();
        let mut placed = true;
        let mut j: usize = 0;
        while j < parents.len() && placed
            invariant
                0 <= j <= parents.len(),
                g == self@,
                well_formed(g),
                item < g.len(),
                parents@ == g[item as int].dependants,
                layer_of@.len() == g.len(),
                forall|p: int|
                    0 <= p < g.len() ==> ((#[trigger] layer_of@[p] matches Some(c) && c < k)
                        <==> depth(g, p) < k),
                placed <==> forall|m: int|
                    0 <= m < j ==> depth(g, (#[trigger] parents@[m]) as int) < k,
            decreases parents.len() - j,
        {
            let parent = parents[j];
            assert(item < g[item as int].dependants[j as int] < g.len());
            match layer_of[parent] {
                Some(c) => {
                    if c >= k {
                        placed = false;
                    }
                },
                None => {
                    placed = false;
                },
            }
            if !placed {
                assert(!(depth(g, parents@[j as int] as int) < k));
            }
            j = j + 1;
        }
        proof {
            lemma_depth(g, item as int);
            if placed {
                if depth(g, item as int) > k {
                    let w = choose|w: int|
                        0 <= w < g[item as int].dependants.len() && depth(
                            g,
                            (#[trigger] g[item as int].dependants[w]) as int,
                        ) + 1 == depth(g, item as int);
                    assert(depth(g, parents@[w] as int) < k);
                }
            } else {
                let m = choose|m: int|
                    0 <= m < j && !(depth(g, (#[trigger] parents@[m]) as int) < k);
                assert(depth(g, g[item as int].dependants[m] as int) < depth(g, item as int));
            }
        }
        placed
    }

    /// Lays the graph out in layers, the first layer first.
    ///
    /// A node is ready for the next layer once every node that requires it
    /// stands in an earlier layer: so what nothing requires makes up the
    /// first layer, and every other node stands one layer behind the last of
    /// the nodes that require it. Every node stands in exactly one layer, a
    /// layer holds its nodes by rising id, and no layer is empty. A
    /// well-formed graph has no cycle, so the layering always comes to an
    /// end.
    pub fn build_dependency_view(&self) -> (columns: Vec<Vec<usize>>)
        ensures
            well_formed(self@),
            layered(self@, layers_of(columns@)),
    {
        proof {
            use_type_invariant(self);
        }
        let ghost g = self@;
        let n = self.len();
        let mut layer_of: Vec<Option<usize>> = Vec::new();
        let mut to_insert: Vec<usize> = Vec::new();
        let mut i: usize = 0;
        while i < n
            invariant
                0 <= i <= n,
                layer_of@.len() == i,
                to_insert@.len() == i,
                forall|x: int| 0 <= x < i ==> (#[trigger] layer_of@[x]) is None,
                forall|x: int| 0 <= x < i ==> (#[trigger] to_insert@[x]) == x,
            decreases n - i,
        {
            layer_of.push(None);
            to_insert.push(i);
            i = i + 1;
        }
        let mut columns: Vec<Vec<usize>> = Vec::new();
        proof {
            assert forall|x: int|
                0 <= x < g.len() && (#[trigger] depth(g, x)) >= 0 implies to_insert@.contains(
                x as usize,
            ) by {
                assert(to_insert@[x] == x as usize);
            }
        }
        while to_insert.len() > 0
            invariant
                g == self@,
                well_formed(g),
                n == g.len(),
                columns@.len() <= n,
                placed_below(g, layer_of@, columns@.len() as int),
                waiting_from(g, to_insert@, columns@.len() as int),
                layered_below(g, layers_of(columns@)),
            decreases n - columns@.len(),
        {
            let k = columns.len();
            proof {
                let w = to_insert@[0];
                lemma_depth_bound(g, w as int);
                lemma_depth_inhabited(g, w as int, k as nat);
            }
            let this_loop = to_insert;
            to_insert = Vec::new();
            let mut next_column: Vec<usize> = Vec::new();
            let mut idx: usize = 0;
            while idx < this_loop.len()
                invariant
                    0 <= idx <= this_loop.len(),
                    g == self@,
                    well_formed(g),
                    n == g.len(),
                    k < n,
                    waiting_from(g, this_loop@, k as int),
                    layer_of@.len() == n,
                    forall|x: int|
                        0 <= x < n && depth(g, x) < k ==> #[trigger] layer_of@[x] == Some(
                            depth(g, x) as usize,
                        ),
                    forall|m: int|
                        0 <= m < this_loop@.len() ==> layer_of@[(#[trigger] this_loop@[m]) as int]
                            == (if m < idx && depth(g, this_loop@[m] as int) == k {
                            Some(k)
                        } else {
                            None
                        }),
                    ascending(next_column@),
                    ascending(to_insert@),
                    forall|a: int|
                        0 <= a < next_column@.len() ==> (#[trigger] next_column@[a]) < n && depth(
                            g,
                            next_column@[a] as int,
                        ) == k,
                    forall|a: int|
                        0 <= a < to_insert@.len() ==> (#[trigger] to_insert@[a]) < n && depth(
                            g,
                            to_insert@[a] as int,
                        ) > k,
                    idx < this_loop@.len() ==> forall|a: int|
                        0 <= a < next_column@.len() ==> (#[trigger] next_column@[a])
                            < this_loop@[idx as int],
                    idx < this_loop@.len() ==> forall|a: int|
                        0 <= a < to_insert@.len() ==> (#[trigger] to_insert@[a])
                            < this_loop@[idx as int],
                    forall|m: int|
                        0 <= m < idx && depth(g, (#[trigger] this_loop@[m]) as int) == k
                            ==> next_column@.contains(this_loop@[m]),
                    forall|m: int|
                        0 <= m < idx && depth(g, (#[trigger] this_loop@[m]) as int) > k
                            ==> to_insert@.contains(this_loop@[m]),
                decreases this_loop.len() - idx,
            {
                let item = this_loop[idx];
                proof {
                    assert forall|p: int| 0 <= p < g.len() implies ((
                    #[trigger] layer_of@[p] matches Some(c) && c < k) <==> depth(g, p) < k) by {
                        if depth(g, p) >= k {
                            assert(this_loop@.contains(p as usize));
                            let m = choose|m: int|
                                0 <= m < this_loop@.len() && this_loop@[m] == p as usize;
                            assert(layer_of@[this_loop@[m] as int] == Some(k)
                                || layer_of@[this_loop@[m] as int] is None);
                        }
                    }
                }
                let ghost old_next = next_column@;
                let ghost old_wait = to_insert@;
                // A node that is placed need not put what it requires back in
                // line: whatever stands in no layer yet is waiting already.
                if self.requirers_placed(item, &layer_of, k) {
                    next_column.push(item);
                    layer_of[item] = Some(k);
                    proof {
                        assert(next_column@[old_next.len() as int] == item);
                        assert forall|m: int|
                            0 <= m < idx + 1 && depth(g, (#[trigger] this_loop@[m]) as int)
                                == k implies next_column@.contains(this_loop@[m]) by {
                            if m < idx {
                                let a = choose|a: int|
                                    0 <= a < old_next.len() && old_next[a] == this_loop@[m];
                                assert(next_column@[a] == this_loop@[m]);
                            }
                        }
                    }
                } else {
                    to_insert.push(item);
                    proof {
                        assert(to_insert@[old_wait.len() as int] == item);
                        assert forall|m: int|
                            0 <= m < idx + 1 && depth(g, (#[trigger] this_loop@[m]) as int)
                                > k implies to_insert@.contains(this_loop@[m]) by {
                            if m < idx {
                                let a = choose|a: int|
                                    0 <= a < old_wait.len() && old_wait[a] == this_loop@[m];
                                assert(to_insert@[a] == this_loop@[m]);
                            }
                        }
                    }
                }
                proof {
                    assert forall|m: int| 0 <= m < this_loop@.len() implies layer_of@[(
                    #[trigger] this_loop@[m]) as int] == (if m < idx + 1 && depth(
                        g,
                        this_loop@[m] as int,
                    ) == k {
                        Some(k)
                    } else {
                        None
                    }) by {
                        if m < idx {
                            assert(this_loop@[m] < this_loop@[idx as int]);
                        }
                        if idx < m {
                            assert(this_loop@[idx as int] < this_loop@[m]);
                        }
                    }
                    if idx + 1 < this_loop@.len() {
                        assert(this_loop@[idx as int] < this_loop@[idx + 1]);
                    }
                }
                idx = idx + 1;
            }
            proof {
                let ghost before = layers_of(columns@);
                let ghost after = before.push(next_column@);
                let w = choose|x: int| 0 <= x < g.len() && #[trigger] depth(g, x) == k;
                assert(this_loop@.contains(w as usize));
                let mw = choose|m: int| 0 <= m < this_loop@.len() && this_loop@[m] == w as usize;
                assert(next_column@.contains(this_loop@[mw]));
                assert forall|x: int|
                    0 <= x < g.len() && (#[trigger] depth(g, x)) < after.len() implies after[depth(
                    g,
                    x,
                ) as int].contains(x as usize) by {
                    if depth(g, x) < k {
                        assert(before[depth(g, x) as int].contains(x as usize));
                    } else {
                        assert(this_loop@.contains(x as usize));
                        let m = choose|m: int|
                            0 <= m < this_loop@.len() && this_loop@[m] == x as usize;
                        assert(next_column@.contains(this_loop@[m]));
                    }
                }
                assert forall|x: int|
                    0 <= x < g.len() && (#[trigger] depth(g, x)) >= k + 1
                    implies to_insert@.contains(x as usize) by {
                    assert(this_loop@.contains(x as usize));
                    let m = choose|m: int|
                        0 <= m < this_loop@.len() && this_loop@[m] == x as usize;
                    assert(to_insert@.contains(this_loop@[m]));
                }
                assert forall|x: int| 0 <= x < g.len() implies #[trigger] layer_of@[x] == (if depth(
                    g,
                    x,
                ) < k + 1 {
                    Some(depth(g, x) as usize)
                } else {
                    None
                }) by {
                    if depth(g, x) >= k {
                        assert(this_loop@.contains(x as usize));
                        let m = choose|m: int|
                            0 <= m < this_loop@.len() && this_loop@[m] == x as usize;
                        assert(layer_of@[this_loop@[m] as int] == (if depth(g, x) == k {
                            Some(k)
                        } else {
                            None
                        }));
                    }
                }
            }
            let ghost before = layers_of(columns@);
            columns.push(next_column);
            assert(layers_of(columns@) =~= before.push(next_column@));
        }
        proof {
            let layers = layers_of(columns@);
            assert forall|x: int| 0 <= x < g.len() implies (#[trigger] depth(g, x)) < layers.len()
                && layers[depth(g, x) as int].contains(x as usize) by {
                if depth(g, x) >= layers.len() {
                    assert(to_insert@.contains(x as usize));
                }
            }
        }
        columns
    }
}

} // verus!
