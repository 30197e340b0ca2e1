//! The vocabulary of the batch interface: one command per entity and verb.

use vstd::prelude::*;
use crate::models::{Priority, Status};

verus! {

/// The parsed command line: a command, or none for the interactive board.
pub struct Cli {
    pub command: Option<Command>,
}

/// What the batch interface can be asked to do.
pub enum Command {
    /// Manage epics.
    Epic { action: EpicAction },
    /// Manage stories.
    Story { action: StoryAction },
    /// Manage tasks within stories.
    Task { action: TaskAction },
    /// Show the full board state, restricted to an epic if one is given.
    Board { epic: Option<i64> },
}

pub enum EpicAction {
    /// Create a new epic.
    Create { title: String, description: String, color: String },
    /// List all epics.
    List,
    /// Delete an epic by id.
    Delete { id: i64 },
}

pub enum StoryAction {
    /// Create a new story.
    Create { title: String, epic: Option<i64>, priority: Priority, body: String, status: Status },
    /// List stories with optional filters.
    List { epic: Option<i64>, status: Option<Status> },
    /// Get a story by id.
    Get { id: i64 },
    /// Update the fields that are given, in the order title, status,
    /// priority, body, epic.
    Update {
        id: i64,
        title: Option<String>,
        status: Option<Status>,
        priority: Option<Priority>,
        body: Option<String>,
        epic: Option<i64>,
    },
    /// Delete a story by id.
    Delete { id: i64 },
}

pub enum TaskAction {
    /// Create a new task in a story.
    Create { story_id: i64, title: String },
    /// List the tasks of a story.
    List { story_id: i64 },
    /// Toggle a task's done flag.
    Toggle { id: i64 },
    /// Delete a task by id.
    Delete { id: i64 },
}

} // verus!
