use dependencies::DependencyGraphNode;

#[test]
fn a_new_node_is_disabled_and_without_edges() {
    let node = DependencyGraphNode::new("git");
    assert_eq!(node.name(), "git");
    assert!(!node.is_enabled());
    assert!(!node.top_level());
    assert!(node.children().is_empty());
    assert!(node.parents().is_empty());
    assert_eq!(node.summary(), "git: disabled");
}

#[test]
fn edges_are_appended_in_order() {
    let mut node = DependencyGraphNode::new("zsh");
    node.add_dependency(3);
    node.add_dependency(1);
    node.add_dependant(7);
    node.add_dependant(7);
    assert_eq!(node.children(), vec![3, 1]);
    assert_eq!(node.parents(), vec![7, 7]);
}

#[test]
fn children_and_parents_are_copies() {
    let mut node = DependencyGraphNode::new("zsh");
    node.add_dependency(3);
    let mut children = node.children();
    children.push(9);
    assert_eq!(node.children(), vec![3]);
}

#[test]
fn flags_are_set_as_told() {
    let mut node = DependencyGraphNode::new("zsh");
    node.set_enabled(true);
    assert!(node.is_enabled());
    assert!(!node.top_level());
    node.set_top_level(true);
    assert!(node.top_level());
    node.set_enabled(false);
    assert!(!node.is_enabled());
    assert!(node.top_level());
    node.set_top_level(false);
    assert!(!node.top_level());
    assert_eq!(node.summary(), "zsh: disabled");
}

#[test]
fn a_copy_of_a_node_is_the_same_node() {
    let mut node = DependencyGraphNode::new("zsh");
    node.add_dependency(3);
    node.add_dependant(4);
    node.set_enabled(true);
    let copy = node.clone();
    assert_eq!(copy.name(), "zsh");
    assert_eq!(copy.children(), vec![3]);
    assert_eq!(copy.parents(), vec![4]);
    assert!(copy.is_enabled());
    assert!(!copy.top_level());
}
