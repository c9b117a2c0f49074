//! Building a work item field by field.

use crate::node::{copy_names, copy_text, names_of, text_of, Node, NodeKind, NodeView};
use crate::participants::Participants;
use crate::timeline::Timeline;
use vstd::prelude::*;

verus! {

/// The fields handed to a builder so far.
pub struct BuilderView {
    pub id: Option<u128>,
    pub name: Option<Seq<char>>,
    pub link: Option<Seq<char>>,
    pub timeline: Option<Timeline>,
    pub owner: Option<Seq<char>>,
    pub points: Option<u32>,
    pub participants: Option<Set<Seq<char>>>,
}

/// Collects the fields of a work item and then builds one of a given kind.
#[derive(Debug)]
pub struct NodeBuilder {
    id: Option<u128>,
    name: Option<String>,
    link: Option<String>,
    timeline: Option<Timeline>,
    owner: Option<String>,
    points: Option<u32>,
    participants: Option<Participants>,
}

impl View for NodeBuilder {
    type V = BuilderView;

    closed spec fn view(&self) -> BuilderView {
        BuilderView {
            id: self.id,
            name: text_of(self.name),
            link: text_of(self.link),
            timeline: self.timeline,
            owner: text_of(self.owner),
            points: self.points,
            participants: names_of(self.participants),
        }
    }
}

/// What a build answers where no identifier was handed in.
pub open spec fn missing_id(kind: NodeKind) -> &'static str {
    match kind {
        NodeKind::Project => "Failed to build project - missing project id",
        NodeKind::Spec => "Failed to build Spec - missing Spec id",
        NodeKind::Epic => "Failed to build Epic - missing Epic id",
        NodeKind::UserStory => "Failed to build Userstory - missing Userstory id",
        NodeKind::Tasks => "Failed to build Tasks - missing Tasks id",
    }
}

/// What a build answers where no name was handed in.
pub open spec fn missing_name(kind: NodeKind) -> &'static str {
    match kind {
        NodeKind::Project => "Failed to build project - missing project name",
        NodeKind::Spec => "Failed to build Spec - missing Spec name",
        NodeKind::Epic => "Failed to build Epic - missing Epic name",
        NodeKind::UserStory => "Failed to build Userstory - missing Userstory name",
        NodeKind::Tasks => "Failed to build Tasks - missing Tasks name",
    }
}

/// What a build answers where the kind needs a timeline and none was handed in.
pub open spec fn missing_timeline(kind: NodeKind) -> &'static str {
    match kind {
        NodeKind::Epic => "Failed to build Epic - missing Epic timeline",
        NodeKind::UserStory => "Failed to build Userstory - missing Userstory timeline",
        _ => "Failed to build Tasks - missing Tasks timeline",
    }
}

/// Whether a work item of this kind cannot be built without a timeline.
pub open spec fn needs_timeline(kind: NodeKind) -> bool {
    kind == NodeKind::Epic || kind == NodeKind::UserStory || kind == NodeKind::Tasks
}

/// What building a work item of kind `kind` from the fields `b` gives. The identifier is
/// asked for first, then the name, then the timeline where the kind needs one; a field that
/// the kind does not have is left out.
pub open spec fn built(b: BuilderView, kind: NodeKind) -> Result<NodeView, &'static str> {
    if b.id is None {
        Err(missing_id(kind))
    } else if b.name is None {
        Err(missing_name(kind))
    } else if needs_timeline(kind) && b.timeline is None {
        Err(missing_timeline(kind))
    } else {
        Ok(
            NodeView {
                kind,
                id: b.id->0,
                name: b.name->0,
                link: b.link,
                timeline: if kind.has_timeline() {
                    b.timeline
                } else {
                    None
                },
                points: if kind.has_points() {
                    b.points
                } else {
                    None
                },
                owner: b.owner,
                participants: if kind.has_participants() {
                    b.participants
                } else {
                    None
                },
            },
        )
    }
}

/// Whether `r` is what `built` says, the work item taken by its view.
pub open spec fn is_built(r: Result<Node, &'static str>, b: BuilderView, kind: NodeKind) -> bool {
    match r {
        Ok(node) => built(b, kind) == Ok::<NodeView, &'static str>(node@),
        Err(e) => built(b, kind) == Err::<NodeView, &'static str>(e),
    }
}

impl Default for NodeBuilder {
    fn default() -> (b: NodeBuilder)
        ensures
            b@ == (BuilderView {
                id: None,
                name: None,
                link: None,
                timeline: None,
                owner: None,
                points: None,
                participants: None,
            }),
    {
        NodeBuilder {
            id: None,
            name: None,
            link: None,
            timeline: None,
            owner: None,
            points: None,
            participants: None,
        }
    }
}

impl Clone for NodeBuilder {
    fn clone(&self) -> (b: NodeBuilder)
        ensures
            b@ == self@,
    {
        NodeBuilder {
            id: self.id,
            name: copy_text(&self.name),
            link: copy_text(&self.link),
            timeline: self.timeline,
            owner: copy_text(&self.owner),
            points: self.points,
            participants: copy_names(&self.participants),
        }
    }
}

impl NodeBuilder {
    /// A builder that holds no field yet.
    pub fn new() -> (b: NodeBuilder)
        ensures
            b@ == (BuilderView {
                id: None,
                name: None,
                link: None,
                timeline: None,
                owner: None,
                points: None,
                participants: None,
            }),
    {
        NodeBuilder::default()
    }

    /// Hands in the identifier.
    pub fn with_id(self, id: u128) -> (b: NodeBuilder)
        ensures
            b@ == (BuilderView { id: Some(id), ..self@ }),
    {
        let mut b = self;
        b.id = Some(id);
        b
    }

    /// Hands in the name.
    pub fn with_name(self, name: String) -> (b: NodeBuilder)
        ensures
            b@ == (BuilderView { name: Some(name@), ..self@ }),
    {
        let mut b = self;
        b.name = Some(name);
        b
    }

    /// Hands in the link.
    pub fn with_link(self, link: String) -> (b: NodeBuilder)
        ensures
            b@ == (BuilderView { link: Some(link@), ..self@ }),
    {
        let mut b = self;
        b.link = Some(link);
        b
    }

    /// Hands in the timeline.
    pub fn with_timeline(self, tl: Timeline) -> (b: NodeBuilder)
        ensures
            b@ == (BuilderView { timeline: Some(tl), ..self@ }),
    {
        let mut b = self;
        b.timeline = Some(tl);
        b
    }

    /// Hands in the owner.
    pub fn with_owner(self, owner: String) -> (b: NodeBuilder)
        ensures
            b@ == (BuilderView { owner: Some(owner@), ..self@ }),
    {
        let mut b = self;
        b.owner = Some(owner);
        b
    }

    /// Hands in the points.
    pub fn with_points(self, points: u32) -> (b: NodeBuilder)
        ensures
            b@ == (BuilderView { points: Some(points), ..self@ }),
    {
        let mut b = self;
        b.points = Some(points);
        b
    }

    /// Hands in the participants.
    pub fn with_participants(self, participants: Participants) -> (b: NodeBuilder)
        ensures
            b@ == (BuilderView { participants: Some(participants@), ..self@ }),
    {
        let mut b = self;
        b.participants = Some(participants);
        b
    }

    /// Builds a project. It needs an identifier and a name.
    pub fn build_project(self) -> (r: Result<Node, &'static str>)
        ensures
            is_built(r, self@, NodeKind::Project),
    {
        let id = match self.id {
            Some(id) => id,
            None => {
                return Err("Failed to build project - missing project id");
            },
        };
        let name = match self.name {
            Some(name) => name,
            None => {
                return Err("Failed to build project - missing project name");
            },
        };
        Ok(
            Node::Project {
                id,
                name,
                link: self.link,
                timeline: self.timeline,
                owner: self.owner,
                participants: self.participants,
            },
        )
    }

    /// Builds a spec. It needs an identifier and a name.
    pub fn build_spec(self) -> (r: Result<Node, &'static str>)
        ensures
            is_built(r, self@, NodeKind::Spec),
    {
        let id = match self.id {
            Some(id) => id,
            None => {
                return Err("Failed to build Spec - missing Spec id");
            },
        };
        let name = match self.name {
            Some(name) => name,
            None => {
                return Err("Failed to build Spec - missing Spec name");
            },
        };
        Ok(Node::Spec { id, name, link: self.link, owner: self.owner })
    }

    /// Builds an epic. It needs an identifier, a name and a timeline.
    pub fn build_epic(self) -> (r: Result<Node, &'static str>)
        ensures
            is_built(r, self@, NodeKind::Epic),
    {
        let id = match self.id {
            Some(id) => id,
            None => {
                return Err("Failed to build Epic - missing Epic id");
            },
        };
        let name = match self.name {
            Some(name) => name,
            None => {
                return Err("Failed to build Epic - missing Epic name");
            },
        };
        let timeline = match self.timeline {
            Some(timeline) => timeline,
            None => {
                return Err("Failed to build Epic - missing Epic timeline");
            },
        };
        Ok(
            Node::Epic {
                id,
                name,
                link: self.link,
                timeline,
                points: self.points,
                owner: self.owner,
                participants: self.participants,
            },
        )
    }

    /// Builds a user story. It needs an identifier, a name and a timeline.
    pub fn build_userstory(self) -> (r: Result<Node, &'static str>)
        ensures
            is_built(r, self@, NodeKind::UserStory),
    {
        let id = match self.id {
            Some(id) => id,
            None => {
                return Err("Failed to build Userstory - missing Userstory id");
            },
        };
        let name = match self.name {
            Some(name) => name,
            None => {
                return Err("Failed to build Userstory - missing Userstory name");
            },
        };
        let timeline = match self.timeline {
            Some(timeline) => timeline,
            None => {
                return Err("Failed to build Userstory - missing Userstory timeline");
            },
        };
        Ok(
            Node::UserStory {
                id,
                name,
                link: self.link,
                timeline,
                points: self.points,
                owner: self.owner,
            },
        )
    }

    /// Builds a tasks item. It needs an identifier, a name and a timeline.
    pub fn build_tasks(self) -> (r: Result<Node, &'static str>)
        ensures
            is_built(r, self@, NodeKind::Tasks),
    {
        let id = match self.id {
            Some(id) => id,
            None => {
                return Err("Failed to build Tasks - missing Tasks id");
            },
        };
        let name = match self.name {
            Some(name) => name,
            None => {
                return Err("Failed to build Tasks - missing Tasks name");
            },
        };
        let timeline = match self.timeline {
            Some(timeline) => timeline,
            None => {
                return Err("Failed to build Tasks - missing Tasks timeline");
            },
        };
        Ok(
            Node::Tasks {
                id,
                name,
                link: self.link,
                timeline,
                points: self.points,
                owner: self.owner,
            },
        )
    }
}

} // verus!
