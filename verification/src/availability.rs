//! Whether a component can be used: it is enabled, and so is everything that
//! it requires, directly or further down.

use vstd::prelude::*;
use crate::graph::{has_node, lemma_same_name, position, well_formed, DependencyGraph};
use crate::node::NodeView;

verus! {

/// Whether node `i` is available: its own flag is set, and every node that
/// it requires is available.
pub open spec fn available(g: Seq<NodeView>, i: int) -> bool
    decreases i,
{
    &&& g[i].enabled
    &&& forall|k: int|
        0 <= k < g[i].dependencies.len() && 0 <= (#[trigger] g[i].dependencies[k]) < i
            ==> available(g, g[i].dependencies[k] as int)
}

/// Whether node `m` is node `i` or is required by it, directly or further
/// down.
pub open spec fn reaches(g: Seq<NodeView>, i: int, m: int) -> bool
    decreases i,
{
    ||| m == i
    ||| exists|k: int|
        0 <= k < g[i].dependencies.len() && 0 <= (#[trigger] g[i].dependencies[k]) < i
            && reaches(g, g[i].dependencies[k] as int, m)
}

impl DependencyGraph {
    /// Whether the node with the given id is available: the node and all
    /// that it requires, directly or further down, are enabled. An id that
    /// the graph does not have is not available.
    pub fn is_available_at(&self, id: usize) -> (is_available: bool)
        ensures
            is_available <==> id < self@.len() && available(self@, id as int),
        decreases id,
    {
        proof {
            use_type_invariant(self);
        }
        if id >= self.len() {
            return false;
        }
        let node = self.node(id).unwrap();
        if !node.is_enabled() {
            return false;
        }
        let children = node.dependencies();
        let mut k: usize = 0;
        while k < children.len()
            invariant
                0 <= k <= children.len(),
                well_formed(self@),
                id < self@.len(),
                children@ == self@[id as int].dependencies,
                forall|j: int|
                    0 <= j < k ==> available(self@, (#[trigger] children@[j]) as int),
            decreases children.len() - k,
        {
            assert(0 <= self@[id as int].dependencies[k as int] < id);
            if !self.is_available_at(children[k]) {
                return false;
            }
            k = k + 1;
        }
        true
    }

    /// Whether the component called `name` is available: the graph has it,
    /// and it and all that it requires, directly or further down, are
    /// enabled.
    pub fn is_available(&self, name: &str) -> (is_available: bool)
        ensures
            is_available <==> has_node(self@, name@) && available(
                self@,
                position(self@, name@),
            ),
    {
        proof {
            use_type_invariant(self);
        }
        match self.index_of(name) {
            Some(id) => {
                proof {
                    lemma_same_name(self@, id as int, position(self@, name@));
                }
                self.is_available_at(id)
            },
            None => false,
        }
    }
}

} // verus!
