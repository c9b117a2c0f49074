use project_graph::node::{NO_PARTICIPANTS, NO_POINTS, PARTICIPANTS_EMPTY, PARTICIPANT_ABSENT};
use project_graph::{Instant, Node, NodeBuilder, NodeKind, Participants, Timeline};

fn timeline(end_secs: i64) -> Timeline {
    Timeline::from_start_end(Instant::new(0, 0).unwrap(), Instant::new(end_secs, 0).unwrap())
}

fn base(id: u128) -> NodeBuilder {
    NodeBuilder::new().with_id(id).with_name("work".to_string()).with_timeline(timeline(3600))
}

fn one_of_each() -> Vec<Node> {
    vec![
        base(1).build_project().unwrap(),
        base(2).build_spec().unwrap(),
        base(3).build_epic().unwrap(),
        base(4).build_userstory().unwrap(),
        base(5).build_tasks().unwrap(),
    ]
}

fn participants_of(n: &Node) -> Option<&Participants> {
    match n {
        Node::Project { participants, .. } => participants.as_ref(),
        Node::Epic { participants, .. } => participants.as_ref(),
        _ => None,
    }
}

fn points_of(n: &Node) -> Option<u32> {
    match n {
        Node::Epic { points, .. } => *points,
        Node::UserStory { points, .. } => *points,
        Node::Tasks { points, .. } => *points,
        _ => None,
    }
}

fn timeline_of(n: &Node) -> Option<Timeline> {
    match n {
        Node::Project { timeline, .. } => *timeline,
        Node::Spec { .. } => None,
        Node::Epic { timeline, .. } => Some(*timeline),
        Node::UserStory { timeline, .. } => Some(*timeline),
        Node::Tasks { timeline, .. } => Some(*timeline),
    }
}

fn link_of(n: &Node) -> Option<&str> {
    match n {
        Node::Project { link, .. } => link.as_deref(),
        Node::Spec { link, .. } => link.as_deref(),
        Node::Epic { link, .. } => link.as_deref(),
        Node::UserStory { link, .. } => link.as_deref(),
        Node::Tasks { link, .. } => link.as_deref(),
    }
}

fn owner_of(n: &Node) -> Option<&str> {
    match n {
        Node::Project { owner, .. } => owner.as_deref(),
        Node::Spec { owner, .. } => owner.as_deref(),
        Node::Epic { owner, .. } => owner.as_deref(),
        Node::UserStory { owner, .. } => owner.as_deref(),
        Node::Tasks { owner, .. } => owner.as_deref(),
    }
}

#[test]
fn messages_read_as_documented() {
    assert_eq!(NO_PARTICIPANTS, "This node type does not support participants");
    assert_eq!(NO_POINTS, "This node type does not contain points");
    assert_eq!(PARTICIPANT_ABSENT, "participant does not exist");
    assert_eq!(PARTICIPANTS_EMPTY, "Participants for this node are empty");
}

#[test]
fn kinds_identifiers_and_names() {
    let nodes = one_of_each();
    let kinds: Vec<NodeKind> = nodes.iter().map(|n| n.kind()).collect();
    assert_eq!(
        kinds,
        vec![
            NodeKind::Project,
            NodeKind::Spec,
            NodeKind::Epic,
            NodeKind::UserStory,
            NodeKind::Tasks
        ]
    );
    for (i, n) in nodes.iter().enumerate() {
        assert_eq!(n.get_id(), i as u128 + 1);
        assert_eq!(n.get_name(), "work");
    }
}

#[test]
fn every_kind_takes_identifier_name_link_and_owner() {
    for mut n in one_of_each() {
        let kind = n.kind();
        n.set_id(u128::MAX);
        n.set_name("renamed".to_string());
        n.set_link("https://example.org/a".to_string());
        n.set_link("https://example.org/b".to_string());
        n.set_owner("ann".to_string());
        assert_eq!(n.get_id(), u128::MAX);
        assert_eq!(n.get_name(), "renamed");
        assert_eq!(link_of(&n), Some("https://example.org/b"));
        assert_eq!(owner_of(&n), Some("ann"));
        assert_eq!(n.kind(), kind);
    }
}

#[test]
fn add_participant_on_user_story_and_project() {
    let mut story = base(1).build_userstory().unwrap();
    assert_eq!(story.add_participant("ann".to_string()), Err(NO_PARTICIPANTS));
    let mut project = base(2).build_project().unwrap();
    assert!(participants_of(&project).is_none());
    assert_eq!(project.add_participant("ann".to_string()), Ok(()));
    assert!(participants_of(&project).unwrap().contains("ann"));
    assert!(!participants_of(&project).unwrap().contains("bob"));
}

#[test]
fn participants_by_kind() {
    for mut n in one_of_each() {
        let has = matches!(n.kind(), NodeKind::Project | NodeKind::Epic);
        let added = n.add_participant("ann".to_string());
        if has {
            assert_eq!(added, Ok(()));
            assert_eq!(n.add_participant("ann".to_string()), Ok(()));
            assert_eq!(n.add_participant("bob".to_string()), Ok(()));
            assert_eq!(n.remove_participant("carl"), Err(PARTICIPANT_ABSENT));
            assert_eq!(n.remove_participant("ann"), Ok(()));
            assert_eq!(n.remove_participant("ann"), Err(PARTICIPANT_ABSENT));
            assert!(participants_of(&n).unwrap().contains("bob"));
            assert!(!participants_of(&n).unwrap().contains("ann"));
        } else {
            assert_eq!(added, Err(NO_PARTICIPANTS));
            assert_eq!(n.remove_participant("ann"), Err(NO_PARTICIPANTS));
        }
    }
}

#[test]
fn removing_from_a_work_item_without_a_set() {
    let mut project = base(1).build_project().unwrap();
    assert_eq!(project.remove_participant("ann"), Err(PARTICIPANTS_EMPTY));
    let mut epic = base(2).build_epic().unwrap();
    assert_eq!(epic.remove_participant("ann"), Err(PARTICIPANTS_EMPTY));
    epic.add_participant("ann".to_string()).unwrap();
    epic.remove_participant("ann").unwrap();
    // The set stays, empty: the answer is now that the name is not in it.
    assert_eq!(epic.remove_participant("ann"), Err(PARTICIPANT_ABSENT));
}

#[test]
fn set_points_on_spec_and_tasks() {
    let mut spec = base(1).build_spec().unwrap();
    assert_eq!(spec.set_points(5), Err(NO_POINTS));
    let mut tasks = base(2).build_tasks().unwrap();
    assert_eq!(points_of(&tasks), None);
    assert_eq!(tasks.set_points(5), Ok(()));
    assert_eq!(points_of(&tasks), Some(5));
}

#[test]
fn points_by_kind() {
    for mut n in one_of_each() {
        let has = matches!(n.kind(), NodeKind::Epic | NodeKind::UserStory | NodeKind::Tasks);
        let r = n.set_points(13);
        if has {
            assert_eq!(r, Ok(()));
            assert_eq!(points_of(&n), Some(13));
            assert_eq!(n.set_points(0), Ok(()));
            assert_eq!(points_of(&n), Some(0));
        } else {
            assert_eq!(r, Err(NO_POINTS));
            assert_eq!(points_of(&n), None);
        }
    }
}

#[test]
fn set_timeline_is_silent_on_a_spec() {
    let later = timeline(86_401);
    for mut n in one_of_each() {
        let kind = n.kind();
        n.set_timeline(later);
        if kind == NodeKind::Spec {
            assert!(timeline_of(&n).is_none());
            assert_eq!(n.get_name(), "work");
            assert_eq!(n.get_id(), 2);
        } else {
            let t = timeline_of(&n).unwrap();
            assert_eq!(t.end.unwrap().secs(), 86_401);
            assert_eq!(t.duration, Some(project_graph::Duration::Days(2)));
        }
    }
}

#[test]
fn a_project_may_start_without_a_timeline() {
    let mut p = NodeBuilder::new().with_id(1).with_name("p".to_string()).build_project().unwrap();
    assert!(timeline_of(&p).is_none());
    p.set_timeline(timeline(60));
    assert_eq!(timeline_of(&p).unwrap().end.unwrap().secs(), 60);
}

#[test]
fn a_clone_holds_the_same_and_is_its_own() {
    let mut epic = base(3)
        .with_link("l".to_string())
        .with_owner("o".to_string())
        .with_points(2)
        .build_epic()
        .unwrap();
    epic.add_participant("ann".to_string()).unwrap();
    let mut copy = epic.clone();
    assert_eq!(copy.get_id(), 3);
    assert_eq!(copy.get_name(), "work");
    assert_eq!(link_of(&copy), Some("l"));
    assert_eq!(owner_of(&copy), Some("o"));
    assert_eq!(points_of(&copy), Some(2));
    assert!(participants_of(&copy).unwrap().contains("ann"));
    copy.remove_participant("ann").unwrap();
    copy.set_name("other".to_string());
    assert!(participants_of(&epic).unwrap().contains("ann"));
    assert_eq!(epic.get_name(), "work");
}

#[test]
fn participants_behave_as_a_set() {
    let mut p = Participants::new();
    assert!(!p.contains("ann"));
    assert!(p.insert("ann".to_string()));
    assert!(!p.insert("ann".to_string()));
    assert!(p.insert("bob".to_string()));
    assert!(p.contains("ann"));
    assert!(p.contains("bob"));
    assert!(!p.remove("carl"));
    assert!(p.remove("ann"));
    assert!(!p.remove("ann"));
    assert!(!p.contains("ann"));
    assert!(p.contains("bob"));
    let copy = p.clone();
    assert!(copy.contains("bob"));
    assert!(!copy.contains("ann"));
}

#[test]
fn builder_reports_the_first_missing_field() {
    let empty = NodeBuilder::new();
    assert_eq!(
        empty.clone().build_project().unwrap_err(),
        "Failed to build project - missing project id"
    );
    assert_eq!(empty.clone().build_spec().unwrap_err(), "Failed to build Spec - missing Spec id");
    assert_eq!(empty.clone().build_epic().unwrap_err(), "Failed to build Epic - missing Epic id");
    assert_eq!(
        empty.clone().build_userstory().unwrap_err(),
        "Failed to build Userstory - missing Userstory id"
    );
    assert_eq!(empty.clone().build_tasks().unwrap_err(), "Failed to build Tasks - missing Tasks id");

    let with_id = NodeBuilder::new().with_id(1).with_timeline(timeline(1));
    assert_eq!(
        with_id.clone().build_project().unwrap_err(),
        "Failed to build project - missing project name"
    );
    assert_eq!(with_id.clone().build_spec().unwrap_err(), "Failed to build Spec - missing Spec name");
    assert_eq!(with_id.clone().build_epic().unwrap_err(), "Failed to build Epic - missing Epic name");
    assert_eq!(
        with_id.clone().build_userstory().unwrap_err(),
        "Failed to build Userstory - missing Userstory name"
    );
    assert_eq!(
        with_id.clone().build_tasks().unwrap_err(),
        "Failed to build Tasks - missing Tasks name"
    );

    let named = NodeBuilder::new().with_id(1).with_name("n".to_string());
    assert!(named.clone().build_project().is_ok());
    assert!(named.clone().build_spec().is_ok());
    assert_eq!(
        named.clone().build_epic().unwrap_err(),
        "Failed to build Epic - missing Epic timeline"
    );
    assert_eq!(
        named.clone().build_userstory().unwrap_err(),
        "Failed to build Userstory - missing Userstory timeline"
    );
    assert_eq!(
        named.clone().build_tasks().unwrap_err(),
        "Failed to build Tasks - missing Tasks timeline"
    );
}

#[test]
fn builder_hands_each_kind_its_fields() {
    let mut people = Participants::new();
    people.insert("ann".to_string());
    let full = NodeBuilder::new()
        .with_id(9)
        .with_name("n".to_string())
        .with_link("l".to_string())
        .with_timeline(timeline(7200))
        .with_owner("o".to_string())
        .with_points(3)
        .with_participants(people);
    let built = vec![
        full.clone().build_project().unwrap(),
        full.clone().build_spec().unwrap(),
        full.clone().build_epic().unwrap(),
        full.clone().build_userstory().unwrap(),
        full.clone().build_tasks().unwrap(),
    ];
    for n in &built {
        assert_eq!(n.get_id(), 9);
        assert_eq!(n.get_name(), "n");
        assert_eq!(link_of(n), Some("l"));
        assert_eq!(owner_of(n), Some("o"));
        let kind = n.kind();
        assert_eq!(timeline_of(n).is_some(), kind != NodeKind::Spec);
        let has_points = matches!(kind, NodeKind::Epic | NodeKind::UserStory | NodeKind::Tasks);
        assert_eq!(points_of(n), if has_points { Some(3) } else { None });
        let has_people = matches!(kind, NodeKind::Project | NodeKind::Epic);
        assert_eq!(participants_of(n).map(|p| p.contains("ann")), if has_people {
            Some(true)
        } else {
            None
        });
    }
}

#[test]
fn a_later_field_replaces_an_earlier_one() {
    let n = NodeBuilder::new()
        .with_id(1)
        .with_id(2)
        .with_name("a".to_string())
        .with_name("b".to_string())
        .with_points(1)
        .with_points(4)
        .with_timeline(timeline(10))
        .build_tasks()
        .unwrap();
    assert_eq!(n.get_id(), 2);
    assert_eq!(n.get_name(), "b");
    assert_eq!(points_of(&n), Some(4));
}

#[test]
fn participants_list_each_name_once() {
    let mut p = Participants::new();
    assert!(p.to_vec().is_empty());
    p.insert("ann".to_string());
    p.insert("bob".to_string());
    p.insert("ann".to_string());
    p.insert("carl".to_string());
    p.remove("bob");
    let mut names = p.to_vec();
    names.sort();
    assert_eq!(names, vec!["ann".to_string(), "carl".to_string()]);
}
