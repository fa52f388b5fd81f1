//! The dependency graph: every node once, by name, with its edges.

use vstd::prelude::*;
use crate::node::{fresh_node, node_line, DependencyGraphNode, NodeView};
use crate::text::{join, joined, texts};

verus! {

/// Whether some node of `g` has the given name.
pub open spec fn has_node(g: Seq<NodeView>, name: Seq<char>) -> bool {
    exists|i: int| 0 <= i < g.len() && (#[trigger] g[i]).name == name
}

/// The id of a node of `g` with the given name. In a well-formed graph there
/// is at most one.
pub open spec fn position(g: Seq<NodeView>, name: Seq<char>) -> int {
    choose|i: int| 0 <= i < g.len() && (#[trigger] g[i]).name == name
}

/// Whether node `n` lists node `d` among the nodes that it requires.
pub open spec fn depends_on(g: Seq<NodeView>, n: int, d: int) -> bool {
    exists|k: int| 0 <= k < g[n].dependencies.len() && #[trigger] g[n].dependencies[k] == d
}

/// Whether node `d` lists node `n` among the nodes that require it.
pub open spec fn required_by(g: Seq<NodeView>, d: int, n: int) -> bool {
    exists|k: int| 0 <= k < g[d].dependants.len() && #[trigger] g[d].dependants[k] == n
}

/// What holds of every graph that this library builds: its ids fit the
/// machine, no name occurs twice, a node requires only nodes that were added
/// before it, and every edge is listed at both of its ends.
pub open spec fn well_formed(g: Seq<NodeView>) -> bool {
    &&& g.len() <= usize::MAX
    &&& forall|i: int, j: int|
        0 <= i < j < g.len() ==> (#[trigger] g[i]).name != (#[trigger] g[j]).name
    &&& forall|n: int, k: int|
        0 <= n < g.len() && 0 <= k < g[n].dependencies.len() ==> 0 <= (
        #[trigger] g[n].dependencies[k]) < n
    &&& forall|d: int, k: int|
        0 <= d < g.len() && 0 <= k < g[d].dependants.len() ==> d < (
        #[trigger] g[d].dependants[k]) < g.len()
    &&& forall|n: int, d: int|
        0 <= n < g.len() && 0 <= d < g.len() ==> (#[trigger] depends_on(g, n, d)
            <==> required_by(g, d, n))
}

/// `g` with one more edge: node `from` requires node `to`.
pub open spec fn with_edge(g: Seq<NodeView>, from: int, to: int) -> Seq<NodeView> {
    if 0 <= from < g.len() && 0 <= to < g.len() {
        g.update(
            from,
            NodeView { dependencies: g[from].dependencies.push(to as usize), ..g[from] },
        ).update(to, NodeView { dependants: g[to].dependants.push(from as usize), ..g[to] })
    } else {
        g
    }
}

/// The lines of the first `n` nodes of a graph, in order.
pub open spec fn node_lines(g: Seq<NodeView>, n: nat) -> Seq<Seq<char>> {
    Seq::new(n, |i: int| node_line(g[i]))
}

/// All components that were asked for, each with what it requires.
#[derive(Debug)]
pub struct DependencyGraph {
    nodes: Vec<DependencyGraphNode>,
}

/// The nodes of a list as mathematical values.
pub open spec fn node_views(nodes: Seq<DependencyGraphNode>) -> Seq<NodeView> {
    Seq::new(nodes.len(), |i: int| nodes[i]@)
}

impl View for DependencyGraph {
    type V = Seq<NodeView>;

    closed spec fn view(&self) -> Seq<NodeView> {
        node_views(self.nodes@)
    }
}

impl DependencyGraph {
    /// What holds of every graph at all times: it is well-formed.
    #[verifier::type_invariant]
    pub open spec fn is_well_formed(&self) -> bool {
        well_formed(self@)
    }

    /// Takes the nodes out of the graph, which is empty until they are put
    /// back.
    fn take_nodes(&mut self) -> (nodes: Vec<DependencyGraphNode>)
        ensures
            node_views(nodes@) == old(self)@,
            nodes@.len() == old(self)@.len(),
            final(self)@ == Seq::<NodeView>::empty(),
    {
        let mut taken = DependencyGraph::new();
        std::mem::swap(self, &mut taken);
        let DependencyGraph { nodes } = taken;
        nodes
    }

    /// Puts nodes in the place of those that the graph holds.
    fn put_nodes(&mut self, nodes: Vec<DependencyGraphNode>)
        requires
            well_formed(node_views(nodes@)),
        ensures
            final(self)@ == node_views(nodes@),
    {
        *self = DependencyGraph { nodes };
    }
}

impl Clone for DependencyGraph {
    fn clone(&self) -> (copy: Self)
        ensures
            copy@ == self@,
    {
        let mut nodes: Vec<DependencyGraphNode> = Vec::new();
        let mut i: usize = 0;
        while i < self.nodes.len()
            invariant
                0 <= i <= self.nodes.len(),
                nodes@.len() == i,
                forall|j: int| 0 <= j < i ==> (#[trigger] nodes@[j])@ == self.nodes@[j]@,
            decreases self.nodes.len() - i,
        {
            nodes.push(self.nodes[i].clone());
            i = i + 1;
        }
        proof {
            use_type_invariant(self);
            assert(node_views(nodes@) =~= self@);
        }
        DependencyGraph { nodes }
    }
}

impl Default for DependencyGraph {
    fn default() -> (graph: Self)
        ensures
            graph@ == Seq::<NodeView>::empty(),
            well_formed(graph@),
    {
        DependencyGraph::new()
    }
}

impl DependencyGraph {
    /// An empty graph.
    pub fn new() -> (graph: Self)
        ensures
            graph@ == Seq::<NodeView>::empty(),
            well_formed(graph@),
    {
        let graph = DependencyGraph { nodes: Vec::new() };
        assert(graph@ =~= Seq::<NodeView>::empty());
        graph
    }

    /// The number of nodes.
    pub fn len(&self) -> (n: usize)
        ensures
            n == self@.len(),
    {
        self.nodes.len()
    }

    /// The graph as a text: the line of every node, in the order of the
    /// ids, one below the other.
    pub fn summary(&self) -> (text: String)
        ensures
            text@ == joined(node_lines(self@, self@.len()), "\n"@),
    {
        let mut lines: Vec<String> = Vec::new();
        let mut i: usize = 0;
        while i < self.nodes.len()
            invariant
                0 <= i <= self.nodes.len(),
                texts(lines@) == node_lines(self@, i as nat),
            decreases self.nodes.len() - i,
        {
            let ghost before = texts(lines@);
            lines.push(self.nodes[i].summary());
            assert(texts(lines@) =~= before.push(node_line(self@[i as int])));
            assert(node_lines(self@, (i + 1) as nat) =~= before.push(
                node_line(self@[i as int]),
            ));
            i = i + 1;
        }
        join(&lines, "\n")
    }

    /// The id of the node with the given name, if there is one.
    pub fn index_of(&self, name: &str) -> (found: Option<usize>)
        ensures
            found is Some <==> has_node(self@, name@),
            found matches Some(id) ==> id < self@.len() && self@[id as int].name == name@
                && forall|j: int| 0 <= j < id ==> (#[trigger] self@[j]).name != name@,
    {
        let wanted = name.to_owned();
        let mut i: usize = 0;
        while i < self.nodes.len()
            invariant
                0 <= i <= self.nodes.len(),
                wanted@ == name@,
                forall|j: int| 0 <= j < i ==> (#[trigger] self@[j]).name != name@,
            decreases self.nodes.len() - i,
        {
            if self.nodes[i].is_named(&wanted) {
                assert(self@[i as int].name == name@);
                return Some(i);
            }
            i = i + 1;
        }
        None
    }

    /// Adds a node without edges for the component called `name` and gives
    /// its id.
    pub(crate) fn push_node(&mut self, name: &str) -> (id: usize)
        requires
            old(self)@.len() < usize::MAX ==> well_formed(old(self)@.push(fresh_node(name@))),
        ensures
            id == old(self)@.len(),
            id < usize::MAX,
            final(self)@ == old(self)@.push(fresh_node(name@)),
    {
        let mut nodes = self.take_nodes();
        let id = nodes.len();
        nodes.push(DependencyGraphNode::new(name));
        let count = nodes.len();
        assert(count == id + 1);
        assert(node_views(nodes@) =~= old(self)@.push(fresh_node(name@)));
        self.put_nodes(nodes);
        id
    }

    /// Adds the edge from node `from` to node `to`, at both ends.
    pub(crate) fn link(&mut self, from: usize, to: usize)
        requires
            from < old(self)@.len(),
            to < old(self)@.len(),
            from != to,
            well_formed(with_edge(old(self)@, from as int, to as int)),
        ensures
            final(self)@ == with_edge(old(self)@, from as int, to as int),
    {
        let mut nodes = self.take_nodes();
        nodes[from].add_dependency(to);
        nodes[to].add_dependant(from);
        assert(node_views(nodes@) =~= with_edge(old(self)@, from as int, to as int));
        self.put_nodes(nodes);
    }

    /// Marks node `id` as asked for directly.
    pub(crate) fn mark_top_level(&mut self, id: usize)
        requires
            id < old(self)@.len(),
        ensures
            final(self)@ == old(self)@.update(
                id as int,
                NodeView { top_level: true, ..old(self)@[id as int] },
            ),
    {
        proof {
            use_type_invariant(&*self);
        }
        let mut nodes = self.take_nodes();
        nodes[id].set_top_level(true);
        assert(node_views(nodes@) =~= old(self)@.update(
            id as int,
            NodeView { top_level: true, ..old(self)@[id as int] },
        ));
        proof {
            lemma_flags_well_formed(old(self)@, node_views(nodes@));
        }
        self.put_nodes(nodes);
    }

    /// The node with the given id, if the graph has one.
    pub fn node(&self, id: usize) -> (node: Option<&DependencyGraphNode>)
        ensures
            node is Some <==> id < self@.len(),
            node matches Some(n) ==> n@ == self@[id as int],
    {
        if id < self.nodes.len() {
            Some(&self.nodes[id])
        } else {
            None
        }
    }

    /// The node of the component called `name`, if the graph has one: the
    /// first node of that name, which in a well-formed graph is the only
    /// one.
    pub fn get(&self, name: &str) -> (node: Option<&DependencyGraphNode>)
        ensures
            node is Some <==> has_node(self@, name@),
            node matches Some(n) ==> n@.name == name@ && exists|id: int|
                0 <= id < self@.len() && #[trigger] self@[id] == n@ && forall|j: int|
                    0 <= j < id ==> (#[trigger] self@[j]).name != name@,
    {
        match self.index_of(name) {
            Some(id) => {
                assert(self@[id as int] == self.nodes@[id as int]@);
                Some(&self.nodes[id])
            },
            None => None,
        }
    }

    /// Whether the graph has a node for `name` that was asked for directly,
    /// not only required by another.
    pub fn is_top_level(&self, name: &str) -> (top_level: bool)
        ensures
            top_level <==> exists|id: int|
                0 <= id < self@.len() && (#[trigger] self@[id]).name == name@
                    && self@[id].top_level,
    {
        proof {
            use_type_invariant(self);
        }
        match self.index_of(name) {
            Some(id) => {
                let top_level = self.nodes[id].top_level();
                proof {
                    if exists|other: int|
                        0 <= other < self@.len() && (#[trigger] self@[other]).name == name@
                            && self@[other].top_level {
                        let other = choose|other: int|
                            0 <= other < self@.len() && (#[trigger] self@[other]).name == name@
                                && self@[other].top_level;
                        lemma_same_name(self@, id as int, other);
                    }
                }
                top_level
            },
            None => false,
        }
    }

    /// Sets the own flag of the node called `name` and says whether the
    /// graph has such a node. Nothing else changes.
    pub fn set_enabled(&mut self, name: &str, enabled: bool) -> (found: bool)
        ensures
            found == has_node(old(self)@, name@),
            found ==> final(self)@ == old(self)@.update(
                position(old(self)@, name@),
                NodeView { enabled, ..old(self)@[position(old(self)@, name@)] },
            ),
            !found ==> final(self)@ == old(self)@,
            well_formed(final(self)@),
    {
        proof {
            use_type_invariant(&*self);
        }
        match self.index_of(name) {
            Some(id) => {
                proof {
                    lemma_same_name(self@, id as int, position(self@, name@));
                }
                let mut nodes = self.take_nodes();
                nodes[id].set_enabled(enabled);
                assert(node_views(nodes@) =~= old(self)@.update(
                    id as int,
                    NodeView { enabled, ..old(self)@[id as int] },
                ));
                proof {
                    lemma_flags_well_formed(old(self)@, node_views(nodes@));
                }
                self.put_nodes(nodes);
                true
            },
            None => false,
        }
    }
}

/// In a well-formed graph two nodes with one name are one node.
pub proof fn lemma_same_name(g: Seq<NodeView>, i: int, j: int)
    requires
        well_formed(g),
        0 <= i < g.len(),
        0 <= j < g.len(),
        g[i].name == g[j].name,
    ensures
        i == j,
{
    if i < j {
        assert(g[i].name != g[j].name);
    }
    if j < i {
        assert(g[j].name != g[i].name);
    }
}

/// A change of flags alone keeps a graph well-formed.
pub proof fn lemma_flags_well_formed(g: Seq<NodeView>, h: Seq<NodeView>)
    requires
        well_formed(g),
        h.len() == g.len(),
        forall|i: int|
            0 <= i < g.len() ==> (#[trigger] h[i]).name == g[i].name && h[i].dependencies
                == g[i].dependencies && h[i].dependants == g[i].dependants,
    ensures
        well_formed(h),
{
    assert forall|i: int, j: int| 0 <= i < j < h.len() implies (#[trigger] h[i]).name != (
    #[trigger] h[j]).name by {
        assert(g[i].name != g[j].name);
    }
    assert forall|n: int, k: int|
        0 <= n < h.len() && 0 <= k < h[n].dependencies.len() implies 0 <= (
    #[trigger] h[n].dependencies[k]) < n by {
        assert(g[n].dependencies[k] < n);
    }
    assert forall|d: int, k: int|
        0 <= d < h.len() && 0 <= k < h[d].dependants.len() implies d < (
    #[trigger] h[d].dependants[k]) < h.len() by {
        assert(d < g[d].dependants[k]);
    }
    assert forall|n: int, d: int| 0 <= n < h.len() && 0 <= d < h.len() implies (
    #[trigger] depends_on(h, n, d) <==> required_by(h, d, n)) by {
        assert(depends_on(g, n, d) <==> required_by(g, d, n));
        assert(h[n].dependencies == g[n].dependencies);
        assert(h[d].dependants == g[d].dependants);
    }
}

} // verus!
