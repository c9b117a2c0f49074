//! A dependency graph of project-management work items that never holds a cycle.
//!
//! Work items (`Node`) of five kinds are the vertices of a `ProjectGraph`. An edge says how
//! one work item depends on another (`DependencyType`). The graph accepts an edge only where
//! the compatibility policy allows it between the two kinds and it closes no cycle.

pub mod builder;
pub mod calendar;
pub mod digraph;
pub mod graph;
pub mod node;
pub mod participants;
pub mod timeline;

pub use crate::builder::NodeBuilder;
pub use crate::graph::{DependencyType, ProjectGraph};
pub use crate::node::{Node, NodeKind};
pub use crate::participants::Participants;
pub use crate::timeline::{Duration, Instant, Timeline};
