use dependencies::{Dependency, DependencyGraph};

fn leaf(name: &str) -> Dependency {
    Dependency::new(name, vec![])
}

fn chain() -> Dependency {
    // a requires b, b requires c
    Dependency::new("a", vec![Dependency::new("b", vec![leaf("c")])])
}

fn diamond() -> Dependency {
    // a requires b and c, both of which require d
    Dependency::new(
        "a",
        vec![
            Dependency::new("b", vec![leaf("d")]),
            Dependency::new("c", vec![leaf("d")]),
        ],
    )
}

fn names(graph: &DependencyGraph, ids: &[usize]) -> Vec<String> {
    ids.iter().map(|id| graph.node(*id).unwrap().name().to_string()).collect()
}

fn id(graph: &DependencyGraph, name: &str) -> usize {
    graph.index_of(name).unwrap()
}

#[test]
fn new_graph_is_empty() {
    let graph = DependencyGraph::new();
    assert_eq!(graph.len(), 0);
    assert!(graph.get("a").is_none());
    assert!(!graph.is_top_level("a"));
    assert!(graph.build_dependency_view().is_empty());
}

#[test]
fn insertion_is_idempotent() {
    let mut graph = DependencyGraph::new();
    assert_eq!(graph.add_node(&diamond()), Ok(()));
    let size = graph.len();
    let before: Vec<(Vec<usize>, Vec<usize>)> = (0..size)
        .map(|i| (graph.node(i).unwrap().children(), graph.node(i).unwrap().parents()))
        .collect();
    assert_eq!(graph.add_node(&diamond()), Ok(()));
    assert_eq!(graph.len(), size);
    let after: Vec<(Vec<usize>, Vec<usize>)> = (0..size)
        .map(|i| (graph.node(i).unwrap().children(), graph.node(i).unwrap().parents()))
        .collect();
    assert_eq!(before, after);
    let count = (0..size).filter(|i| graph.node(*i).unwrap().name() == "a").count();
    assert_eq!(count, 1);
}

#[test]
fn edges_are_reciprocal_after_batch_insertion() {
    let mut graph = DependencyGraph::new();
    assert_eq!(graph.add_nodes(vec![diamond(), chain(), leaf("e")]), Ok(()));
    for n in 0..graph.len() {
        for d in graph.node(n).unwrap().children() {
            assert!(graph.node(d).unwrap().parents().contains(&n));
        }
        for p in graph.node(n).unwrap().parents() {
            assert!(graph.node(p).unwrap().children().contains(&n));
        }
    }
}

#[test]
fn transitive_closure_of_a_chain() {
    let mut graph = DependencyGraph::new();
    assert_eq!(graph.add_node(&chain()), Ok(()));
    assert_eq!(graph.len(), 3);
    let (a, b, c) = (id(&graph, "a"), id(&graph, "b"), id(&graph, "c"));
    assert_eq!(graph.node(a).unwrap().children(), vec![b]);
    assert_eq!(graph.node(b).unwrap().children(), vec![c]);
    assert_eq!(graph.node(c).unwrap().children(), Vec::<usize>::new());
    assert_eq!(graph.node(c).unwrap().parents(), vec![b]);
    assert_eq!(graph.node(b).unwrap().parents(), vec![a]);
    assert!(graph.node(a).unwrap().parents().is_empty());
}

#[test]
fn diamond_has_one_node_for_the_shared_prerequisite() {
    let mut graph = DependencyGraph::new();
    assert_eq!(graph.add_node(&diamond()), Ok(()));
    assert_eq!(graph.len(), 4);
    let count = (0..graph.len()).filter(|i| graph.node(*i).unwrap().name() == "d").count();
    assert_eq!(count, 1);
    let d = id(&graph, "d");
    let parents = names(&graph, &graph.node(d).unwrap().parents());
    assert_eq!(parents.len(), 2);
    assert!(parents.contains(&"b".to_string()));
    assert!(parents.contains(&"c".to_string()));
}

#[test]
fn prerequisites_come_before_their_dependants_in_the_graph() {
    let mut graph = DependencyGraph::new();
    assert_eq!(graph.add_node(&diamond()), Ok(()));
    assert_eq!(names(&graph, &[0, 1, 2, 3]), vec!["d", "b", "c", "a"]);
    assert_eq!(graph.node(3).unwrap().children(), vec![1, 2]);
    assert_eq!(graph.node(0).unwrap().parents(), vec![1, 2]);
}

#[test]
fn layering_orders_every_edge() {
    let mut graph = DependencyGraph::new();
    assert_eq!(graph.add_nodes(vec![diamond(), chain(), leaf("e")]), Ok(()));
    let view = graph.build_dependency_view();
    let mut layer_of = vec![usize::MAX; graph.len()];
    for (index, layer) in view.iter().enumerate() {
        assert!(!layer.is_empty());
        for node in layer {
            assert_eq!(layer_of[*node], usize::MAX, "a node stands in two layers");
            layer_of[*node] = index;
        }
    }
    assert!(layer_of.iter().all(|layer| *layer != usize::MAX));
    for n in 0..graph.len() {
        for d in graph.node(n).unwrap().children() {
            assert!(layer_of[n] < layer_of[d]);
        }
    }
    // a second call gives the same view
    assert_eq!(graph.build_dependency_view(), view);
}

#[test]
fn layers_of_a_chain() {
    let mut graph = DependencyGraph::new();
    assert_eq!(graph.add_node(&chain()), Ok(()));
    let view = graph.build_dependency_view();
    assert_eq!(view.len(), 3);
    assert_eq!(names(&graph, &view[0]), vec!["a"]);
    assert_eq!(names(&graph, &view[1]), vec!["b"]);
    assert_eq!(names(&graph, &view[2]), vec!["c"]);
}

#[test]
fn layers_of_a_diamond() {
    let mut graph = DependencyGraph::new();
    assert_eq!(graph.add_node(&diamond()), Ok(()));
    let view = graph.build_dependency_view();
    assert_eq!(view.len(), 3);
    assert_eq!(names(&graph, &view[0]), vec!["a"]);
    assert_eq!(names(&graph, &view[1]), vec!["b", "c"]);
    assert_eq!(names(&graph, &view[2]), vec!["d"]);
}

#[test]
fn test_build_dependency_graph_simple_a_b() {
    let mut graph = DependencyGraph::new();
    let a = Dependency::new("a", vec![leaf("b")]);
    assert_eq!(graph.add_nodes(vec![a, leaf("b")]), Ok(()));
    let view = graph.build_dependency_view();
    assert_eq!(view.len(), 2);
    assert_eq!(view[0].len(), 1);
    assert_eq!(view[1].len(), 1);
    assert_eq!(graph.node(view[0][0]).unwrap().name(), "a");
    assert_eq!(graph.node(view[1][0]).unwrap().name(), "b");
}

#[test]
fn test_build_dependency_graph_multiple_dependencies() {
    let mut graph = DependencyGraph::new();
    let a = Dependency::new("a", vec![leaf("b"), leaf("c")]);
    assert_eq!(graph.add_nodes(vec![a, leaf("b"), leaf("c")]), Ok(()));
    let view = graph.build_dependency_view();
    assert_eq!(view.len(), 2);
    assert_eq!(view[0].len(), 1);
    assert_eq!(view[1].len(), 2);
    assert_eq!(graph.node(view[0][0]).unwrap().name(), "a");
    assert!(view[1].iter().any(|dep| graph.node(*dep).unwrap().name() == "b"));
    assert!(view[1].iter().any(|dep| graph.node(*dep).unwrap().name() == "c"));
}

#[test]
fn test_build_dependency_graph_complex_multilayer_dependencies() {
    // a requires b and c, b requires c
    let mut graph = DependencyGraph::new();
    let b = || Dependency::new("b", vec![leaf("c")]);
    let a = Dependency::new("a", vec![b(), leaf("c")]);
    assert_eq!(graph.add_nodes(vec![leaf("c"), b(), a]), Ok(()));
    let view = graph.build_dependency_view();
    assert_eq!(view.len(), 3);
    assert_eq!(names(&graph, &view[0]), vec!["a"]);
    assert_eq!(names(&graph, &view[1]), vec!["b"]);
    assert_eq!(names(&graph, &view[2]), vec!["c"]);
}

#[test]
fn availability_follows_the_prerequisites() {
    let mut graph = DependencyGraph::new();
    assert_eq!(graph.add_node(&diamond()), Ok(()));
    for name in ["a", "b", "c", "d"] {
        assert!(!graph.is_available(name), "nodes start disabled");
        assert!(graph.set_enabled(name, true));
    }
    for name in ["a", "b", "c", "d"] {
        assert!(graph.is_available(name));
    }
    assert!(graph.set_enabled("d", false));
    assert!(!graph.is_available("d"));
    assert!(!graph.is_available("b"));
    assert!(!graph.is_available("c"));
    assert!(!graph.is_available("a"));
    assert!(graph.set_enabled("d", true));
    assert!(graph.set_enabled("b", false));
    assert!(!graph.is_available("a"));
    assert!(!graph.is_available("b"));
    assert!(graph.is_available("c"));
    assert!(graph.is_available("d"));
    assert!(graph.set_enabled("b", true));
    assert!(graph.set_enabled("a", false));
    assert!(!graph.is_available("a"));
    assert!(graph.is_available("b"));
}

#[test]
fn leaf_is_available_exactly_when_enabled() {
    let mut graph = DependencyGraph::new();
    assert_eq!(graph.add_node(&leaf("only")), Ok(()));
    assert!(!graph.is_available("only"));
    assert!(graph.set_enabled("only", true));
    assert!(graph.is_available("only"));
    assert!(graph.is_available_at(0));
    assert!(graph.set_enabled("only", false));
    assert!(!graph.is_available("only"));
}

#[test]
fn what_the_graph_does_not_have_is_not_available() {
    let mut graph = DependencyGraph::new();
    assert_eq!(graph.add_node(&leaf("only")), Ok(()));
    assert!(!graph.set_enabled("other", true));
    assert!(!graph.is_available("other"));
    assert!(!graph.is_available_at(1));
    assert!(graph.get("other").is_none());
    assert_eq!(graph.index_of("other"), None);
}

#[test]
fn top_level_is_what_was_asked_for() {
    let mut graph = DependencyGraph::new();
    assert_eq!(graph.add_node(&chain()), Ok(()));
    assert!(graph.is_top_level("a"));
    assert!(!graph.is_top_level("b"));
    assert!(!graph.is_top_level("c"));
    assert!(!graph.is_top_level("z"));
    // asked for later, a prerequisite becomes top level; nothing is added
    assert_eq!(graph.add_node(&Dependency::new("b", vec![leaf("c")])), Ok(()));
    assert_eq!(graph.len(), 3);
    assert!(graph.is_top_level("b"));
    assert!(graph.is_top_level("a"));
    assert!(graph.get("b").unwrap().top_level());
}

#[test]
fn nodes_start_disabled_and_keep_their_names() {
    let mut graph = DependencyGraph::new();
    assert_eq!(graph.add_node(&chain()), Ok(()));
    let node = graph.get("b").unwrap();
    assert_eq!(node.name(), "b");
    assert!(!node.is_enabled());
    assert!(!node.top_level());
}

#[test]
fn a_component_that_requires_itself_is_refused() {
    let mut graph = DependencyGraph::new();
    let own = Dependency::new("a", vec![Dependency::new("b", vec![leaf("a")])]);
    assert_eq!(graph.add_node(&own), Err("a".to_string()));
    assert_eq!(graph.len(), 0);
    let direct = Dependency::new("x", vec![leaf("x")]);
    assert_eq!(graph.add_node(&direct), Err("x".to_string()));
    assert_eq!(graph.len(), 0);
}

#[test]
fn what_was_inserted_before_a_refusal_stays() {
    let mut graph = DependencyGraph::new();
    let item = Dependency::new(
        "a",
        vec![leaf("ok"), Dependency::new("b", vec![leaf("a")])],
    );
    assert_eq!(graph.add_node(&item), Err("a".to_string()));
    assert_eq!(graph.len(), 1);
    assert_eq!(graph.node(0).unwrap().name(), "ok");
    assert!(graph.node(0).unwrap().parents().is_empty());
    assert!(!graph.is_top_level("ok"));
}

#[test]
fn add_nodes_reports_every_failure() {
    let mut graph = DependencyGraph::new();
    let bad1 = Dependency::new("x", vec![leaf("x")]);
    let bad2 = Dependency::new("y", vec![Dependency::new("z", vec![leaf("y")])]);
    let result = graph.add_nodes(vec![bad1, chain(), bad2, leaf("e")]);
    assert_eq!(result, Err(vec!["x".to_string(), "y".to_string()]));
    assert_eq!(graph.len(), 4);
    assert!(graph.is_top_level("a"));
    assert!(graph.is_top_level("e"));
}

#[test]
fn a_prerequisite_named_twice_is_linked_twice() {
    let mut graph = DependencyGraph::new();
    let item = Dependency::new("a", vec![leaf("b"), leaf("b")]);
    assert_eq!(graph.add_node(&item), Ok(()));
    assert_eq!(graph.len(), 2);
    assert_eq!(graph.node(id(&graph, "a")).unwrap().children(), vec![0, 0]);
    assert_eq!(graph.node(0).unwrap().parents(), vec![1, 1]);
}

#[test]
fn a_known_name_is_left_alone() {
    let mut graph = DependencyGraph::new();
    assert_eq!(graph.add_node(&leaf("a")), Ok(()));
    // the same name with another declaration adds nothing
    assert_eq!(graph.add_node(&chain()), Ok(()));
    assert_eq!(graph.len(), 1);
    assert!(graph.node(0).unwrap().children().is_empty());
}

#[test]
fn declaration_accessors() {
    let item = chain();
    assert_eq!(item.name(), "a");
    assert_eq!(item.prerequisites().len(), 1);
    assert_eq!(item.prerequisites()[0].name(), "b");
}

#[test]
fn summary_has_a_line_for_every_node() {
    let mut graph = DependencyGraph::new();
    assert_eq!(graph.summary(), "");
    assert_eq!(graph.add_node(&chain()), Ok(()));
    assert!(graph.set_enabled("b", true));
    assert_eq!(graph.summary(), "c: disabled\nb: enabled\na: disabled");
    assert_eq!(graph.get("b").unwrap().summary(), "b: enabled");
}

#[test]
fn a_copy_of_a_graph_is_the_same_graph() {
    let mut graph = DependencyGraph::new();
    assert_eq!(graph.add_node(&diamond()), Ok(()));
    assert!(graph.set_enabled("d", true));
    let copy = graph.clone();
    assert_eq!(copy.len(), graph.len());
    assert_eq!(copy.summary(), graph.summary());
    assert_eq!(copy.build_dependency_view(), graph.build_dependency_view());
    for i in 0..graph.len() {
        let (a, b) = (graph.node(i).unwrap(), copy.node(i).unwrap());
        assert_eq!(a.name(), b.name());
        assert_eq!(a.children(), b.children());
        assert_eq!(a.parents(), b.parents());
        assert_eq!(a.top_level(), b.top_level());
        assert_eq!(a.is_enabled(), b.is_enabled());
    }
    // the copy is a graph of its own
    assert!(graph.set_enabled("a", true));
    assert!(!copy.get("a").unwrap().is_enabled());
}

#[test]
fn the_default_graph_is_empty() {
    let graph = DependencyGraph::default();
    assert_eq!(graph.len(), 0);
    assert!(graph.node(0).is_none());
}

#[test]
fn a_node_by_its_id() {
    let mut graph = DependencyGraph::new();
    assert_eq!(graph.add_node(&leaf("only")), Ok(()));
    assert_eq!(graph.node(0).unwrap().name(), "only");
    assert!(graph.node(1).is_none());
}
