//! One component's place in a dependency graph.

use vstd::prelude::*;
use vstd::string::StringExecFns;

verus! {

/// A node as a mathematical value. Edges are the ids of other nodes of the
/// same graph: the positions at which the graph holds them.
pub struct NodeView {
    pub name: Seq<char>,
    pub top_level: bool,
    pub enabled: bool,
    /// The nodes that this node requires, in declared order.
    pub dependencies: Seq<usize>,
    /// The nodes that require this node, in the order in which they were linked.
    pub dependants: Seq<usize>,
}

/// The value of a node that was just made for `name`: disabled, not top
/// level, without edges.
pub open spec fn fresh_node(name: Seq<char>) -> NodeView {
    NodeView {
        name,
        top_level: false,
        enabled: false,
        dependencies: Seq::empty(),
        dependants: Seq::empty(),
    }
}

/// A node in one line: the name, a colon, and whether the node's own flag is
/// set.
pub open spec fn node_line(node: NodeView) -> Seq<char> {
    node.name + ": "@ + (if node.enabled {
        "enabled"@
    } else {
        "disabled"@
    })
}

/// A component inside a graph: its name, its two flags and its edges.
#[derive(Debug)]
pub struct DependencyGraphNode {
    name: String,
    top_level: bool,
    enabled: bool,
    dependencies: Vec<usize>,
    dependants: Vec<usize>,
}

impl View for DependencyGraphNode {
    type V = NodeView;

    closed spec fn view(&self) -> NodeView {
        NodeView {
            name: self.name@,
            top_level: self.top_level,
            enabled: self.enabled,
            dependencies: self.dependencies@,
            dependants: self.dependants@,
        }
    }
}

impl Clone for DependencyGraphNode {
    fn clone(&self) -> (copy: Self)
        ensures
            copy@ == self@,
    {
        DependencyGraphNode {
            name: self.name.clone(),
            top_level: self.top_level,
            enabled: self.enabled,
            dependencies: copy_ids(&self.dependencies),
            dependants: copy_ids(&self.dependants),
        }
    }
}

impl DependencyGraphNode {
    /// A node for the component called `name`, disabled, not top level and
    /// without edges.
    pub fn new(name: &str) -> (node: Self)
        ensures
            node@ == fresh_node(name@),
    {
        DependencyGraphNode {
            name: name.to_owned(),
            top_level: false,
            enabled: false,
            dependencies: Vec::new(),
            dependants: Vec::new(),
        }
    }

    /// Appends `dependency` to the nodes that this node requires. The other
    /// half of the edge is the caller's to add.
    pub fn add_dependency(&mut self, dependency: usize)
        ensures
            final(self)@ == (NodeView {
                dependencies: old(self)@.dependencies.push(dependency),
                ..old(self)@
            }),
    {
        self.dependencies.push(dependency);
    }

    /// Appends `dependant` to the nodes that require this node. The other
    /// half of the edge is the caller's to add.
    pub fn add_dependant(&mut self, dependant: usize)
        ensures
            final(self)@ == (NodeView {
                dependants: old(self)@.dependants.push(dependant),
                ..old(self)@
            }),
    {
        self.dependants.push(dependant);
    }

    /// A copy of the ids of the nodes that this node requires.
    pub fn children(&self) -> (ids: Vec<usize>)
        ensures
            ids@ == self@.dependencies,
    {
        copy_ids(&self.dependencies)
    }

    /// A copy of the ids of the nodes that require this node.
    pub fn parents(&self) -> (ids: Vec<usize>)
        ensures
            ids@ == self@.dependants,
    {
        copy_ids(&self.dependants)
    }

    /// Sets the node's own flag. What the node requires is not looked at.
    pub fn set_enabled(&mut self, enabled: bool)
        ensures
            final(self)@ == (NodeView { enabled, ..old(self)@ }),
    {
        self.enabled = enabled;
    }

    /// The node's own flag. What the node requires is not looked at.
    pub fn is_enabled(&self) -> (enabled: bool)
        ensures
            enabled == self@.enabled,
    {
        self.enabled
    }

    /// The component's name.
    pub fn name(&self) -> (name: &str)
        ensures
            name@ == self@.name,
    {
        self.name.as_str()
    }

    /// Whether the component was asked for directly.
    pub fn top_level(&self) -> (top_level: bool)
        ensures
            top_level == self@.top_level,
    {
        self.top_level
    }

    /// Sets whether the component was asked for directly.
    pub fn set_top_level(&mut self, top_level: bool)
        ensures
            final(self)@ == (NodeView { top_level, ..old(self)@ }),
    {
        self.top_level = top_level;
    }

    /// The node in one line; see `node_line`.
    pub fn summary(&self) -> (line: String)
        ensures
            line@ == node_line(self@),
    {
        let mut line = self.name.clone();
        line.append(": ");
        if self.enabled {
            line.append("enabled");
        } else {
            line.append("disabled");
        }
        line
    }

    /// The ids of the nodes that this node requires, without a copy.
    pub(crate) fn dependencies(&self) -> (ids: &Vec<usize>)
        ensures
            ids@ == self@.dependencies,
    {
        &self.dependencies
    }

    /// The ids of the nodes that require this node, without a copy.
    pub(crate) fn dependants(&self) -> (ids: &Vec<usize>)
        ensures
            ids@ == self@.dependants,
    {
        &self.dependants
    }

    /// Whether the node stands for the component called `name`.
    pub(crate) fn is_named(&self, name: &String) -> (same: bool)
        ensures
            same == (self@.name == name@),
    {
        self.name == *name
    }
}

/// A copy of a list of ids.
fn copy_ids(ids: &Vec<usize>) -> (copy: Vec<usize>)
    ensures
        copy@ == ids@,
{
    let mut copy: Vec<usize> = Vec::new();
    let mut i: usize = 0;
    while i < ids.len()
        invariant
            0 <= i <= ids.len(),
            copy@ == ids@.subrange(0, i as int),
        decreases ids.len() - i,
    {
        copy.push(ids[i]);
        assert(copy@ =~= ids@.subrange(0, i + 1));
        i = i + 1;
    }
    assert(copy@ =~= ids@);
    copy
}

} // verus!
