//! Work items: the five kinds, what each kind carries, and the changes each kind accepts.

use crate::participants::Participants;
use crate::timeline::Timeline;
use vstd::prelude::*;

verus! {

/// The kind of a work item.
#[derive(Debug, Clone, Copy, PartialEq, Eq, Structural)]
pub enum NodeKind {
    Project,
    Spec,
    Epic,
    UserStory,
    Tasks,
}

impl NodeKind {
    /// Whether a work item of this kind has participants.
    pub open spec fn has_participants(self) -> bool {
        self == NodeKind::Project || self == NodeKind::Epic
    }

    /// Whether a work item of this kind has points.
    pub open spec fn has_points(self) -> bool {
        self == NodeKind::Epic || self == NodeKind::UserStory || self == NodeKind::Tasks
    }

    /// Whether a work item of this kind has a timeline.
    pub open spec fn has_timeline(self) -> bool {
        self != NodeKind::Spec
    }
}

/// What a work item holds. A field that the kind does not have is `None`.
pub struct NodeView {
    pub kind: NodeKind,
    pub id: u128,
    pub name: Seq<char>,
    pub link: Option<Seq<char>>,
    pub timeline: Option<Timeline>,
    pub points: Option<u32>,
    pub owner: Option<Seq<char>>,
    pub participants: Option<Set<Seq<char>>>,
}

/// A work item.
#[derive(Debug)]
#[allow(inconsistent_fields)]
pub enum Node {
    Project {
        id: u128,
        name: String,
        link: Option<String>,
        timeline: Option<Timeline>,
        owner: Option<String>,
        participants: Option<Participants>,
    },
    Spec { id: u128, name: String, link: Option<String>, owner: Option<String> },
    Epic {
        id: u128,
        name: String,
        link: Option<String>,
        timeline: Timeline,
        points: Option<u32>,
        owner: Option<String>,
        participants: Option<Participants>,
    },
    UserStory {
        id: u128,
        name: String,
        link: Option<String>,
        timeline: Timeline,
        points: Option<u32>,
        owner: Option<String>,
    },
    Tasks {
        id: u128,
        name: String,
        link: Option<String>,
        timeline: Timeline,
        points: Option<u32>,
        owner: Option<String>,
    },
}

/// The text of an optional string.
pub open spec fn text_of(s: Option<String>) -> Option<Seq<char>> {
    match s {
        Some(s) => Some(s@),
        None => None,
    }
}

/// The names in an optional set of participants.
pub open spec fn names_of(p: Option<Participants>) -> Option<Set<Seq<char>>> {
    match p {
        Some(p) => Some(p@),
        None => None,
    }
}

impl View for Node {
    type V = NodeView;

    open spec fn view(&self) -> NodeView {
        match *self {
            Node::Project { id, name, link, timeline, owner, participants } => NodeView {
                kind: NodeKind::Project,
                id,
                name: name@,
                link: text_of(link),
                timeline,
                points: None,
                owner: text_of(owner),
                participants: names_of(participants),
            },
            Node::Spec { id, name, link, owner } => NodeView {
                kind: NodeKind::Spec,
                id,
                name: name@,
                link: text_of(link),
                timeline: None,
                points: None,
                owner: text_of(owner),
                participants: None,
            },
            Node::Epic { id, name, link, timeline, points, owner, participants } => NodeView {
                kind: NodeKind::Epic,
                id,
                name: name@,
                link: text_of(link),
                timeline: Some(timeline),
                points,
                owner: text_of(owner),
                participants: names_of(participants),
            },
            Node::UserStory { id, name, link, timeline, points, owner } => NodeView {
                kind: NodeKind::UserStory,
                id,
                name: name@,
                link: text_of(link),
                timeline: Some(timeline),
                points,
                owner: text_of(owner),
                participants: None,
            },
            Node::Tasks { id, name, link, timeline, points, owner } => NodeView {
                kind: NodeKind::Tasks,
                id,
                name: name@,
                link: text_of(link),
                timeline: Some(timeline),
                points,
                owner: text_of(owner),
                participants: None,
            },
        }
    }
}

impl Node {
    /// The kind of the work item.
    pub fn kind(&self) -> (k: NodeKind)
        ensures
            k == self@.kind,
    {
        match self {
            Node::Project { .. } => NodeKind::Project,
            Node::Spec { .. } => NodeKind::Spec,
            Node::Epic { .. } => NodeKind::Epic,
            Node::UserStory { .. } => NodeKind::UserStory,
            Node::Tasks { .. } => NodeKind::Tasks,
        }
    }

    /// The identifier of the work item.
    pub fn get_id(&self) -> (id: u128)
        ensures
            id == self@.id,
    {
        match self {
            Node::Project { id, .. }
            | Node::Spec { id, .. }
            | Node::Epic { id, .. }
            | Node::UserStory { id, .. }
            | Node::Tasks { id, .. } => *id,
        }
    }

    /// The name of the work item.
    pub fn get_name(&self) -> (name: &str)
        ensures
            name@ == self@.name,
    {
        match self {
            Node::Project { name, .. }
            | Node::Spec { name, .. }
            | Node::Epic { name, .. }
            | Node::UserStory { name, .. }
            | Node::Tasks { name, .. } => name.as_str(),
        }
    }

    /// Gives the work item another identifier.
    pub fn set_id(&mut self, uid: u128)
        ensures
            final(self)@ == (NodeView { id: uid, ..old(self)@ }),
    {
        match self {
            Node::Project { id, .. } => {
                *id = uid;
            },
            Node::Spec { id, .. } => {
                *id = uid;
            },
            Node::Epic { id, .. } => {
                *id = uid;
            },
            Node::UserStory { id, .. } => {
                *id = uid;
            },
            Node::Tasks { id, .. } => {
                *id = uid;
            },
        }
    }
}

/// What a change of participants answers on a kind that has none.
pub const NO_PARTICIPANTS: &'static str = "This node type does not support participants";

/// What `set_points` answers on a kind that has no points.
pub const NO_POINTS: &'static str = "This node type does not contain points";

/// What `remove_participant` answers where the work item has participants, but not this one.
pub const PARTICIPANT_ABSENT: &'static str = "participant does not exist";

/// What `remove_participant` answers where the work item has no set of participants yet.
pub const PARTICIPANTS_EMPTY: &'static str = "Participants for this node are empty";

/// The names in an optional set, none where there is no set.
pub open spec fn names_or_none(p: Option<Set<Seq<char>>>) -> Set<Seq<char>> {
    match p {
        Some(names) => names,
        None => Set::empty(),
    }
}

/// A copy of an optional string.
pub(crate) fn copy_text(text: &Option<String>) -> (r: Option<String>)
    ensures
        text_of(r) == text_of(*text),
{
    match text {
        Some(s) => Some(s.clone()),
        None => None,
    }
}

/// A copy of an optional set of participants.
pub(crate) fn copy_names(names: &Option<Participants>) -> (r: Option<Participants>)
    ensures
        names_of(r) == names_of(*names),
{
    match names {
        Some(p) => Some(p.clone()),
        None => None,
    }
}

/// Adds `name` to the set in `slot`, starting a set where there is none.
fn add_name(slot: &mut Option<Participants>, name: String)
    ensures
        names_of(*final(slot)) == Some(names_or_none(names_of(*old(slot))).insert(name@)),
{
    if slot.is_none() {
        *slot = Some(Participants::new());
    }
    match slot {
        Some(p) => {
            p.insert(name);
        },
        None => {},
    }
}

/// Takes `name` out of the set in `slot`, and says why where it cannot.
fn remove_name(slot: &mut Option<Participants>, name: &str) -> (r: Result<(), &'static str>)
    ensures
        r == Node::removal(names_of(*old(slot)), name@),
        names_of(*final(slot)) == (if r is Ok {
            Some(names_or_none(names_of(*old(slot))).remove(name@))
        } else {
            names_of(*old(slot))
        }),
{
    match slot {
        Some(p) => {
            if p.remove(name) {
                Ok(())
            } else {
                assert(p@ =~= old(slot)->0@);
                Err(PARTICIPANT_ABSENT)
            }
        },
        None => Err(PARTICIPANTS_EMPTY),
    }
}

impl Clone for Node {
    fn clone(&self) -> (n: Node)
        ensures
            n@ == self@,
    {
        match self {
            Node::Project { id, name, link, timeline, owner, participants } => Node::Project {
                id: *id,
                name: name.clone(),
                link: copy_text(link),
                timeline: *timeline,
                owner: copy_text(owner),
                participants: copy_names(participants),
            },
            Node::Spec { id, name, link, owner } => Node::Spec {
                id: *id,
                name: name.clone(),
                link: copy_text(link),
                owner: copy_text(owner),
            },
            Node::Epic { id, name, link, timeline, points, owner, participants } => Node::Epic {
                id: *id,
                name: name.clone(),
                link: copy_text(link),
                timeline: *timeline,
                points: *points,
                owner: copy_text(owner),
                participants: copy_names(participants),
            },
            Node::UserStory { id, name, link, timeline, points, owner } => Node::UserStory {
                id: *id,
                name: name.clone(),
                link: copy_text(link),
                timeline: *timeline,
                points: *points,
                owner: copy_text(owner),
            },
            Node::Tasks { id, name, link, timeline, points, owner } => Node::Tasks {
                id: *id,
                name: name.clone(),
                link: copy_text(link),
                timeline: *timeline,
                points: *points,
                owner: copy_text(owner),
            },
        }
    }
}

impl Node {
    /// Gives the work item another name.
    pub fn set_name(&mut self, new_name: String)
        ensures
            final(self)@ == (NodeView { name: new_name@, ..old(self)@ }),
    {
        match self {
            Node::Project { name, .. } => {
                *name = new_name;
            },
            Node::Spec { name, .. } => {
                *name = new_name;
            },
            Node::Epic { name, .. } => {
                *name = new_name;
            },
            Node::UserStory { name, .. } => {
                *name = new_name;
            },
            Node::Tasks { name, .. } => {
                *name = new_name;
            },
        }
    }

    /// Gives the work item a link, in place of any it had.
    pub fn set_link(&mut self, new_link: String)
        ensures
            final(self)@ == (NodeView { link: Some(new_link@), ..old(self)@ }),
    {
        match self {
            Node::Project { link, .. } => {
                *link = Some(new_link);
            },
            Node::Spec { link, .. } => {
                *link = Some(new_link);
            },
            Node::Epic { link, .. } => {
                *link = Some(new_link);
            },
            Node::UserStory { link, .. } => {
                *link = Some(new_link);
            },
            Node::Tasks { link, .. } => {
                *link = Some(new_link);
            },
        }
    }

    /// Gives the work item a timeline, in place of any it had. A spec has no timeline: it
    /// stays as it is, and no failure is reported.
    pub fn set_timeline(&mut self, new_timeline: Timeline)
        ensures
            old(self)@.kind.has_timeline() ==> final(self)@ == (NodeView {
                timeline: Some(new_timeline),
                ..old(self)@
            }),
            !old(self)@.kind.has_timeline() ==> final(self)@ == old(self)@,
    {
        match self {
            Node::Project { timeline, .. } => {
                *timeline = Some(new_timeline);
            },
            Node::Spec { .. } => {},
            Node::Epic { timeline, .. } => {
                *timeline = new_timeline;
            },
            Node::UserStory { timeline, .. } => {
                *timeline = new_timeline;
            },
            Node::Tasks { timeline, .. } => {
                *timeline = new_timeline;
            },
        }
    }

    /// Gives the work item an owner, in place of any it had.
    pub fn set_owner(&mut self, new_owner: String)
        ensures
            final(self)@ == (NodeView { owner: Some(new_owner@), ..old(self)@ }),
    {
        match self {
            Node::Project { owner, .. } => {
                *owner = Some(new_owner);
            },
            Node::Spec { owner, .. } => {
                *owner = Some(new_owner);
            },
            Node::Epic { owner, .. } => {
                *owner = Some(new_owner);
            },
            Node::UserStory { owner, .. } => {
                *owner = Some(new_owner);
            },
            Node::Tasks { owner, .. } => {
                *owner = Some(new_owner);
            },
        }
    }

    /// Adds a participant to a project or an epic, starting its set where it had none. The
    /// other kinds have no participants and answer `NO_PARTICIPANTS`.
    pub fn add_participant(&mut self, participant: String) -> (r: Result<(), &'static str>)
        ensures
            old(self)@.kind.has_participants() ==> r is Ok && final(self)@ == (NodeView {
                participants: Some(
                    names_or_none(old(self)@.participants).insert(participant@),
                ),
                ..old(self)@
            }),
            !old(self)@.kind.has_participants() ==> r == Err::<(), &'static str>(NO_PARTICIPANTS)
                && final(self)@ == old(self)@,
    {
        match self {
            Node::Project { participants, .. } => {
                add_name(participants, participant);
                Ok(())
            },
            Node::Epic { participants, .. } => {
                add_name(participants, participant);
                Ok(())
            },
            _ => Err(NO_PARTICIPANTS),
        }
    }

    /// What taking `name` out of `participants` answers on a kind that has participants.
    pub open spec fn removal(participants: Option<Set<Seq<char>>>, name: Seq<char>) -> Result<
        (),
        &'static str,
    > {
        match participants {
            Some(names) => if names.contains(name) {
                Ok(())
            } else {
                Err(PARTICIPANT_ABSENT)
            },
            None => Err(PARTICIPANTS_EMPTY),
        }
    }

    /// Takes a participant out of a project or an epic. Answers `PARTICIPANT_ABSENT` where the
    /// set does not hold the name, `PARTICIPANTS_EMPTY` where the work item has no set, and
    /// `NO_PARTICIPANTS` on the other kinds. Only success changes the work item.
    pub fn remove_participant(&mut self, participant: &str) -> (r: Result<(), &'static str>)
        ensures
            old(self)@.kind.has_participants() ==> r == Node::removal(
                old(self)@.participants,
                participant@,
            ),
            !old(self)@.kind.has_participants() ==> r == Err::<(), &'static str>(NO_PARTICIPANTS),
            r is Ok ==> final(self)@ == (NodeView {
                participants: Some(names_or_none(old(self)@.participants).remove(participant@)),
                ..old(self)@
            }),
            r is Err ==> final(self)@ == old(self)@,
    {
        match self {
            Node::Project { participants, .. } => remove_name(participants, participant),
            Node::Epic { participants, .. } => remove_name(participants, participant),
            _ => Err(NO_PARTICIPANTS),
        }
    }

    /// Sets the points of an epic, a user story or a tasks item. A project and a spec have no
    /// points and answer `NO_POINTS`.
    pub fn set_points(&mut self, new_points: u32) -> (r: Result<(), &'static str>)
        ensures
            old(self)@.kind.has_points() ==> r is Ok && final(self)@ == (NodeView {
                points: Some(new_points),
                ..old(self)@
            }),
            !old(self)@.kind.has_points() ==> r == Err::<(), &'static str>(NO_POINTS)
                && final(self)@ == old(self)@,
    {
        match self {
            Node::Epic { points, .. } => {
                *points = Some(new_points);
                Ok(())
            },
            Node::UserStory { points, .. } => {
                *points = Some(new_points);
                Ok(())
            },
            Node::Tasks { points, .. } => {
                *points = Some(new_points);
                Ok(())
            },
            _ => Err(NO_POINTS),
        }
    }
}

} // verus!
