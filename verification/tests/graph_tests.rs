use project_graph::graph::{DUPLICATE_NODE, INVALID_CONNECTION, UNKNOWN_NODE, WOULD_CYCLE};
use project_graph::DependencyType::{Blocks, Contains, ResourcesRequiredFor};
use project_graph::NodeKind::{Epic, Project, Spec, Tasks, UserStory};
use project_graph::{DependencyType, Instant, Node, NodeBuilder, NodeKind, ProjectGraph, Timeline};

fn timeline() -> Timeline {
    Timeline::from_start_end(Instant::new(0, 0).unwrap(), Instant::new(7200, 0).unwrap())
}

fn node(kind: NodeKind, id: u128) -> Node {
    let b = NodeBuilder::new()
        .with_id(id)
        .with_name(format!("item {}", id))
        .with_timeline(timeline());
    match kind {
        NodeKind::Project => b.build_project().unwrap(),
        NodeKind::Spec => b.build_spec().unwrap(),
        NodeKind::Epic => b.build_epic().unwrap(),
        NodeKind::UserStory => b.build_userstory().unwrap(),
        NodeKind::Tasks => b.build_tasks().unwrap(),
    }
}

fn in_table(from: NodeKind, to: NodeKind, dep: DependencyType) -> bool {
    let table = [
        (Spec, Spec, Contains),
        (Spec, Project, Contains),
        (Project, Project, Contains),
        (Project, Project, Blocks),
        (Project, Project, ResourcesRequiredFor),
        (Project, Epic, Contains),
        (Project, UserStory, Contains),
        (Epic, UserStory, Contains),
        (Epic, Epic, Blocks),
        (Epic, Epic, ResourcesRequiredFor),
        (UserStory, Tasks, Contains),
        (UserStory, UserStory, Blocks),
        (UserStory, UserStory, ResourcesRequiredFor),
        (UserStory, Epic, Blocks),
        (Tasks, Tasks, Blocks),
        (Tasks, Tasks, ResourcesRequiredFor),
        (Tasks, UserStory, ResourcesRequiredFor),
    ];
    table.iter().any(|t| *t == (from, to, dep))
}

const KINDS: [NodeKind; 5] =
    [NodeKind::Project, NodeKind::Spec, NodeKind::Epic, NodeKind::UserStory, NodeKind::Tasks];

const DEPS: [DependencyType; 3] =
    [DependencyType::Blocks, DependencyType::ResourcesRequiredFor, DependencyType::Contains];

#[test]
fn new_graph_is_empty() {
    let g = ProjectGraph::new();
    assert_eq!(g.node_count(), 0);
    assert_eq!(g.edge_count(), 0);
    assert!(!g.is_cyclic());
    assert!(g.get_node(1).is_none());
    assert!(g.get_dependencies(1).is_none());
}

#[test]
fn project_and_two_epics_refuse_the_closing_edge() {
    let p = node(NodeKind::Project, 1);
    let e1 = node(NodeKind::Epic, 2);
    let e2 = node(NodeKind::Epic, 3);
    let mut g = ProjectGraph::new();
    assert_eq!(g.add_node(&p), Ok(()));
    assert_eq!(g.add_node(&e1), Ok(()));
    assert_eq!(g.add_node(&e2), Ok(()));
    assert_eq!(g.connect_nodes(&p, &e1, DependencyType::Contains), Ok(()));
    assert_eq!(g.connect_nodes(&p, &e2, DependencyType::Contains), Ok(()));
    assert_eq!(g.connect_nodes(&e1, &e2, DependencyType::Blocks), Ok(()));
    assert_eq!(g.connect_nodes(&e2, &e1, DependencyType::Blocks), Err(WOULD_CYCLE));
    assert_eq!(g.edge_count(), 3);
    assert!(!g.is_cyclic());
}

#[test]
fn spec_cannot_contain_tasks() {
    let s = node(NodeKind::Spec, 1);
    let t = node(NodeKind::Tasks, 2);
    let mut g = ProjectGraph::new();
    g.add_node(&s).unwrap();
    g.add_node(&t).unwrap();
    assert_eq!(g.connect_nodes(&s, &t, DependencyType::Contains), Err(INVALID_CONNECTION));
    assert_eq!(g.edge_count(), 0);
}

#[test]
fn second_insert_of_an_identifier_is_refused() {
    let p = node(NodeKind::Project, 7);
    let mut g = ProjectGraph::new();
    assert_eq!(g.add_node(&p), Ok(()));
    assert_eq!(g.add_node(&p), Err(DUPLICATE_NODE));
    assert_eq!(g.node_count(), 1);
    let other_kind = node(NodeKind::Epic, 7);
    assert_eq!(g.add_node(&other_kind), Err(DUPLICATE_NODE));
    assert_eq!(g.node_count(), 1);
    assert_eq!(g.get_node(7).unwrap().kind(), NodeKind::Project);
}

#[test]
fn error_messages_read_as_documented() {
    assert_eq!(DUPLICATE_NODE, "The node has already been inserted into the graph");
    assert_eq!(INVALID_CONNECTION, "Invalid connection between the two nodes");
    assert_eq!(UNKNOWN_NODE, "One or more of the nodes does not exist in the graph");
    assert_eq!(WOULD_CYCLE, "Connection would create a cycle");
}

#[test]
fn policy_decides_every_triple() {
    for from in KINDS {
        for to in KINDS {
            for dep in DEPS {
                let a = node(from, 1);
                let b = node(to, 2);
                assert_eq!(ProjectGraph::is_valid_connection(&a, &b, &dep), in_table(from, to, dep));
                let mut g = ProjectGraph::new();
                g.add_node(&a).unwrap();
                g.add_node(&b).unwrap();
                let r = g.connect_nodes(&a, &b, dep);
                if in_table(from, to, dep) {
                    assert_eq!(r, Ok(()));
                    assert_eq!(g.get_dependencies(1), Some(vec![(2, dep)]));
                } else {
                    assert_eq!(r, Err(INVALID_CONNECTION));
                    assert_eq!(g.get_dependencies(1), Some(vec![]));
                }
            }
        }
    }
}

#[test]
fn policy_is_judged_before_the_cycle_and_before_the_lookup() {
    let e = node(NodeKind::Epic, 1);
    let mut g = ProjectGraph::new();
    g.add_node(&e).unwrap();
    // An epic cannot contain itself: refused by the policy, though the edge would also be a loop.
    assert_eq!(g.connect_nodes(&e, &e, DependencyType::Contains), Err(INVALID_CONNECTION));
    // Neither vertex is known, and the policy still answers first.
    let s = node(NodeKind::Spec, 8);
    let t = node(NodeKind::Tasks, 9);
    assert_eq!(g.connect_nodes(&s, &t, DependencyType::Blocks), Err(INVALID_CONNECTION));
}

#[test]
fn unknown_vertices_are_reported() {
    let p = node(NodeKind::Project, 1);
    let q = node(NodeKind::Project, 2);
    let mut g = ProjectGraph::new();
    assert_eq!(g.connect_nodes(&p, &q, DependencyType::Blocks), Err(UNKNOWN_NODE));
    g.add_node(&p).unwrap();
    assert_eq!(g.connect_nodes(&p, &q, DependencyType::Blocks), Err(UNKNOWN_NODE));
    assert_eq!(g.connect_nodes(&q, &p, DependencyType::Blocks), Err(UNKNOWN_NODE));
    assert_eq!(g.edge_count(), 0);
}

#[test]
fn an_edge_from_a_vertex_to_itself_is_a_cycle() {
    let p = node(NodeKind::Project, 1);
    let mut g = ProjectGraph::new();
    g.add_node(&p).unwrap();
    assert_eq!(g.connect_nodes(&p, &p, DependencyType::Blocks), Err(WOULD_CYCLE));
    assert_eq!(g.edge_count(), 0);
    assert_eq!(g.get_dependencies(1), Some(vec![]));
}

#[test]
fn a_longer_cycle_is_refused_and_rolled_back() {
    let a = node(NodeKind::Project, 1);
    let b = node(NodeKind::Project, 2);
    let c = node(NodeKind::Project, 3);
    let mut g = ProjectGraph::new();
    g.add_node(&a).unwrap();
    g.add_node(&b).unwrap();
    g.add_node(&c).unwrap();
    g.connect_nodes(&a, &b, DependencyType::Blocks).unwrap();
    g.connect_nodes(&b, &c, DependencyType::Contains).unwrap();
    g.connect_nodes(&c, &b, DependencyType::Blocks).unwrap_err();
    let deps_before: Vec<_> = [1, 2, 3].iter().map(|id| g.get_dependencies(*id)).collect();
    let nodes_before = g.node_count();
    let edges_before = g.edge_count();
    assert_eq!(g.connect_nodes(&c, &a, DependencyType::ResourcesRequiredFor), Err(WOULD_CYCLE));
    let deps_after: Vec<_> = [1, 2, 3].iter().map(|id| g.get_dependencies(*id)).collect();
    assert_eq!(deps_before, deps_after);
    assert_eq!(g.node_count(), nodes_before);
    assert_eq!(g.edge_count(), edges_before);
    assert_eq!(edges_before, 2);
    assert!(!g.is_cyclic());
}

#[test]
fn rollback_keeps_parallel_edges_and_their_order() {
    let a = node(NodeKind::Project, 1);
    let b = node(NodeKind::Project, 2);
    let mut g = ProjectGraph::new();
    g.add_node(&a).unwrap();
    g.add_node(&b).unwrap();
    g.connect_nodes(&a, &b, DependencyType::Blocks).unwrap();
    g.connect_nodes(&a, &b, DependencyType::Contains).unwrap();
    g.connect_nodes(&a, &b, DependencyType::Blocks).unwrap();
    let wanted = Some(vec![
        (2, DependencyType::Blocks),
        (2, DependencyType::Contains),
        (2, DependencyType::Blocks),
    ]);
    assert_eq!(g.get_dependencies(1), wanted);
    assert_eq!(g.connect_nodes(&b, &a, DependencyType::Contains), Err(WOULD_CYCLE));
    assert_eq!(g.connect_nodes(&a, &a, DependencyType::Contains), Err(WOULD_CYCLE));
    assert_eq!(g.get_dependencies(1), wanted);
    assert_eq!(g.get_dependencies(2), Some(vec![]));
    assert_eq!(g.edge_count(), 3);
}

#[test]
fn dependencies_list_the_edge_connected_last_first() {
    let p = node(NodeKind::Project, 10);
    let e1 = node(NodeKind::Epic, 20);
    let e2 = node(NodeKind::Epic, 30);
    let q = node(NodeKind::Project, 40);
    let mut g = ProjectGraph::new();
    for n in [&p, &e1, &e2, &q] {
        g.add_node(n).unwrap();
    }
    g.connect_nodes(&p, &e1, DependencyType::Contains).unwrap();
    g.connect_nodes(&e1, &e2, DependencyType::Blocks).unwrap();
    g.connect_nodes(&p, &e2, DependencyType::Contains).unwrap();
    g.connect_nodes(&p, &q, DependencyType::ResourcesRequiredFor).unwrap();
    assert_eq!(
        g.get_dependencies(10),
        Some(vec![
            (40, DependencyType::ResourcesRequiredFor),
            (30, DependencyType::Contains),
            (20, DependencyType::Contains),
        ])
    );
    assert_eq!(g.get_dependencies(20), Some(vec![(30, DependencyType::Blocks)]));
    assert_eq!(g.get_dependencies(30), Some(vec![]));
    assert_eq!(g.get_dependencies(99), None);
}

#[test]
fn lookups_repeat_and_leave_the_graph_alone() {
    let p = node(NodeKind::Project, 1);
    let e = node(NodeKind::Epic, 2);
    let mut g = ProjectGraph::new();
    g.add_node(&p).unwrap();
    g.add_node(&e).unwrap();
    g.connect_nodes(&p, &e, DependencyType::Contains).unwrap();
    let first = g.get_dependencies(1);
    let second = g.get_dependencies(1);
    assert_eq!(first, second);
    assert_eq!(first, Some(vec![(2, DependencyType::Contains)]));
    let n1 = g.get_node(2).unwrap();
    let n2 = g.get_node(2).unwrap();
    assert_eq!(n1.get_id(), n2.get_id());
    assert_eq!(n1.get_name(), n2.get_name());
    assert_eq!(n1.kind(), n2.kind());
    assert_eq!(g.node_count(), 2);
    assert_eq!(g.edge_count(), 1);
}

#[test]
fn lookup_gives_the_vertex_as_inserted() {
    let mut item = node(NodeKind::Epic, 5);
    item.set_points(8).unwrap();
    item.add_participant("ann".to_string()).unwrap();
    item.set_owner("bob".to_string());
    let mut g = ProjectGraph::new();
    g.add_node(&item).unwrap();
    // A later change of the caller's value does not reach the graph.
    item.set_name("renamed".to_string());
    let stored = g.get_node(5).unwrap();
    assert_eq!(stored.get_name(), "item 5");
    match stored {
        Node::Epic { id, points, owner, participants, .. } => {
            assert_eq!(*id, 5);
            assert_eq!(*points, Some(8));
            assert_eq!(owner.as_deref(), Some("bob"));
            assert!(participants.as_ref().unwrap().contains("ann"));
        }
        _ => panic!("an epic was inserted"),
    }
    assert!(g.get_node(6).is_none());
}

#[test]
fn the_policy_judges_the_work_items_handed_in() {
    // The graph holds a project under 1; the caller hands an epic with that identifier.
    let p1 = node(NodeKind::Project, 1);
    let p2 = node(NodeKind::Project, 2);
    let mut g = ProjectGraph::new();
    g.add_node(&p1).unwrap();
    g.add_node(&p2).unwrap();
    let as_epic = node(NodeKind::Epic, 1);
    assert_eq!(g.connect_nodes(&as_epic, &p2, DependencyType::Blocks), Err(INVALID_CONNECTION));
    assert_eq!(g.connect_nodes(&p1, &p2, DependencyType::Blocks), Ok(()));
}

#[test]
fn a_clone_is_a_graph_of_its_own() {
    let p = node(NodeKind::Project, 1);
    let q = node(NodeKind::Project, 2);
    let mut g = ProjectGraph::new();
    g.add_node(&p).unwrap();
    g.add_node(&q).unwrap();
    g.connect_nodes(&p, &q, DependencyType::Blocks).unwrap();
    let mut copy = g.clone();
    assert_eq!(copy.get_dependencies(1), g.get_dependencies(1));
    copy.connect_nodes(&p, &q, DependencyType::Contains).unwrap();
    assert_eq!(copy.edge_count(), 2);
    assert_eq!(g.edge_count(), 1);
    assert_eq!(copy.get_node(2).unwrap().get_name(), "item 2");
}

#[test]
fn many_inserts_and_connects_never_leave_a_cycle() {
    let mut g = ProjectGraph::new();
    let nodes: Vec<Node> = (0..12u128).map(|i| node(NodeKind::Project, i)).collect();
    for n in &nodes {
        g.add_node(n).unwrap();
    }
    let mut accepted = 0;
    let mut refused = 0;
    for step in 0..200usize {
        let a = (step * 7 + 3) % 12;
        let b = (step * 5 + step / 12) % 12;
        match g.connect_nodes(&nodes[a], &nodes[b], DEPS[step % 3]) {
            Ok(()) => accepted += 1,
            Err(e) => {
                assert_eq!(e, WOULD_CYCLE);
                refused += 1;
            }
        }
        assert!(!g.is_cyclic());
        assert_eq!(g.edge_count(), accepted);
    }
    assert!(accepted > 0);
    assert!(refused > 0);
}

#[test]
fn vertices_keep_the_position_of_their_insert() {
    let mut g = ProjectGraph::new();
    assert!(g.node_at(0).is_none());
    for (i, kind) in KINDS.iter().enumerate() {
        g.add_node(&node(*kind, 100 + i as u128)).unwrap();
    }
    for (i, kind) in KINDS.iter().enumerate() {
        let n = g.node_at(i).unwrap();
        assert_eq!(n.get_id(), 100 + i as u128);
        assert_eq!(n.kind(), *kind);
    }
    assert!(g.node_at(5).is_none());
    assert!(g.node_at(usize::MAX).is_none());
    assert!(g.node_at(u32::MAX as usize).is_none());
}
