//! Work items and the codecs for their status and priority.

use vstd::prelude::*;
use crate::text::{join3, str_eq};

verus! {

/// The four board columns, in display order; a fixed chain without wraparound.
#[derive(Debug, Clone, Copy, PartialEq, Eq, Structural)]
pub enum Status {
    ToDo,
    InProgress,
    InReview,
    Done,
}

/// The status shown in board column `i`; columns past the last are `Done`.
pub open spec fn status_at(i: int) -> Status {
    if i <= 0 {
        Status::ToDo
    } else if i == 1 {
        Status::InProgress
    } else if i == 2 {
        Status::InReview
    } else {
        Status::Done
    }
}

/// What `Status::from_str` accepts, as a map from token to status.
pub open spec fn status_of_word(s: Seq<char>) -> Option<Status> {
    if s == "todo"@ || s == "to_do"@ || s == "to-do"@ {
        Some(Status::ToDo)
    } else if s == "in-progress"@ || s == "in_progress"@ {
        Some(Status::InProgress)
    } else if s == "in-review"@ || s == "in_review"@ {
        Some(Status::InReview)
    } else if s == "done"@ {
        Some(Status::Done)
    } else {
        None
    }
}

impl Status {
    /// Position of the status in the chain, which is also its board column.
    pub open spec fn rank(self) -> int {
        match self {
            Status::ToDo => 0,
            Status::InProgress => 1,
            Status::InReview => 2,
            Status::Done => 3,
        }
    }

    /// The human-readable column title.
    pub open spec fn label(self) -> Seq<char> {
        match self {
            Status::ToDo => "To Do"@,
            Status::InProgress => "In Progress"@,
            Status::InReview => "In Review"@,
            Status::Done => "Done"@,
        }
    }

    /// The successor in the chain, if any.
    pub open spec fn successor(self) -> Option<Status> {
        if self.rank() < 3 {
            Some(status_at(self.rank() + 1))
        } else {
            None
        }
    }

    /// The predecessor in the chain, if any.
    pub open spec fn predecessor(self) -> Option<Status> {
        if self.rank() > 0 {
            Some(status_at(self.rank() - 1))
        } else {
            None
        }
    }

    /// The human-readable column title.
    pub fn as_str(&self) -> (r: &'static str)
        ensures
            r@ == self.label(),
    {
        match self {
            Status::ToDo => "To Do",
            Status::InProgress => "In Progress",
            Status::InReview => "In Review",
            Status::Done => "Done",
        }
    }

    /// All statuses in column order.
    pub fn all() -> (r: &'static [Status])
        ensures
            r@.len() == 4,
            forall|i: int| 0 <= i < 4 ==> #[trigger] r@[i] == status_at(i),
    {
        &[Status::ToDo, Status::InProgress, Status::InReview, Status::Done]
    }

    /// The column that holds stories of this status.
    pub fn column(&self) -> (r: usize)
        ensures
            r == self.rank(),
            status_at(r as int) == *self,
    {
        match self {
            Status::ToDo => 0,
            Status::InProgress => 1,
            Status::InReview => 2,
            Status::Done => 3,
        }
    }

    /// The next status in the chain; the last has none.
    pub fn next(&self) -> (r: Option<Status>)
        ensures
            r == self.successor(),
    {
        match self {
            Status::ToDo => Some(Status::InProgress),
            Status::InProgress => Some(Status::InReview),
            Status::InReview => Some(Status::Done),
            Status::Done => None,
        }
    }

    /// The previous status in the chain; the first has none.
    pub fn prev(&self) -> (r: Option<Status>)
        ensures
            r == self.predecessor(),
    {
        match self {
            Status::ToDo => None,
            Status::InProgress => Some(Status::ToDo),
            Status::InReview => Some(Status::InProgress),
            Status::Done => Some(Status::InReview),
        }
    }

    /// Reads a status from a command-line word.
    ///
    /// Succeeds exactly on the words of `status_of_word`; any other word is
    /// reported back inside the error text.
    pub fn parse(s: &str) -> (r: Result<Status, String>)
        ensures
            match r {
                Ok(status) => status_of_word(s@) == Some(status),
                Err(e) => status_of_word(s@).is_none() && e@ == "unknown status: '"@ + s@
                    + "' (expected: todo, in-progress, in-review, done)"@,
            },
    {
        if str_eq(s, "todo") || str_eq(s, "to_do") || str_eq(s, "to-do") {
            Ok(Status::ToDo)
        } else if str_eq(s, "in-progress") || str_eq(s, "in_progress") {
            Ok(Status::InProgress)
        } else if str_eq(s, "in-review") || str_eq(s, "in_review") {
            Ok(Status::InReview)
        } else if str_eq(s, "done") {
            Ok(Status::Done)
        } else {
            Err(join3("unknown status: '", s, "' (expected: todo, in-progress, in-review, done)"))
        }
    }
}

/// The statuses form one linear chain without wraparound: every status has
/// a rank among the four, the successor of a status is the status one rank
/// up and leads back by predecessor, only the last status has no successor,
/// and only the first has no predecessor.
pub proof fn lemma_status_chain(status: Status)
    ensures
        0 <= status.rank() < 4,
        status_at(status.rank()) == status,
        status.successor().is_none() <==> status == Status::Done,
        status.predecessor().is_none() <==> status == Status::ToDo,
        status.successor() matches Some(next) ==> next.rank() == status.rank() + 1
            && next.predecessor() == Some(status),
        status.predecessor() matches Some(prev) ==> prev.rank() == status.rank() - 1
            && prev.successor() == Some(status),
{
}

/// Three steps lead from the first status to the last, and no fourth step
/// exists.
pub proof fn lemma_status_chain_ends()
    ensures
        Status::ToDo.successor() == Some(Status::InProgress),
        Status::InProgress.successor() == Some(Status::InReview),
        Status::InReview.successor() == Some(Status::Done),
        Status::Done.successor().is_none(),
        Status::ToDo.predecessor().is_none(),
{
}

impl std::str::FromStr for Status {
    type Err = String;

    fn from_str(s: &str) -> (r: Result<Self, String>)
        ensures
            match r {
                Ok(status) => status_of_word(s@) == Some(status),
                Err(e) => status_of_word(s@).is_none() && e@ == "unknown status: '"@ + s@
                    + "' (expected: todo, in-progress, in-review, done)"@,
            },
    {
        Status::parse(s)
    }
}

/// How urgent a story is: `Low < Medium < High < Critical`.
///
/// Used for display emphasis only; it never orders stories within a column.
#[derive(Debug, Clone, Copy, PartialEq, Eq, PartialOrd, Ord, Structural)]
pub enum Priority {
    Low,
    Medium,
    High,
    Critical,
}

/// What `Priority::from_str` accepts, as a map from token to priority.
pub open spec fn priority_of_word(s: Seq<char>) -> Option<Priority> {
    if s == "low"@ {
        Some(Priority::Low)
    } else if s == "medium"@ {
        Some(Priority::Medium)
    } else if s == "high"@ {
        Some(Priority::High)
    } else if s == "critical"@ {
        Some(Priority::Critical)
    } else {
        None
    }
}

impl Priority {
    /// Position in the order `Low < Medium < High < Critical`.
    pub open spec fn rank(self) -> int {
        match self {
            Priority::Low => 0,
            Priority::Medium => 1,
            Priority::High => 2,
            Priority::Critical => 3,
        }
    }

    /// The human-readable name.
    pub open spec fn label(self) -> Seq<char> {
        match self {
            Priority::Low => "Low"@,
            Priority::Medium => "Medium"@,
            Priority::High => "High"@,
            Priority::Critical => "Critical"@,
        }
    }

    /// The human-readable name.
    pub fn as_str(&self) -> (r: &'static str)
        ensures
            r@ == self.label(),
    {
        match self {
            Priority::Low => "Low",
            Priority::Medium => "Medium",
            Priority::High => "High",
            Priority::Critical => "Critical",
        }
    }

    /// Position in the order, as a number.
    pub fn level(&self) -> (r: u8)
        ensures
            r == self.rank(),
    {
        match self {
            Priority::Low => 0,
            Priority::Medium => 1,
            Priority::High => 2,
            Priority::Critical => 3,
        }
    }

    /// Reads a priority from a command-line word.
    ///
    /// Succeeds exactly on the words of `priority_of_word`; any other word is
    /// reported back inside the error text.
    pub fn parse(s: &str) -> (r: Result<Priority, String>)
        ensures
            match r {
                Ok(priority) => priority_of_word(s@) == Some(priority),
                Err(e) => priority_of_word(s@).is_none() && e@ == "unknown priority: '"@ + s@
                    + "' (expected: low, medium, high, critical)"@,
            },
    {
        if str_eq(s, "low") {
            Ok(Priority::Low)
        } else if str_eq(s, "medium") {
            Ok(Priority::Medium)
        } else if str_eq(s, "high") {
            Ok(Priority::High)
        } else if str_eq(s, "critical") {
            Ok(Priority::Critical)
        } else {
            Err(join3("unknown priority: '", s, "' (expected: low, medium, high, critical)"))
        }
    }
}

impl std::str::FromStr for Priority {
    type Err = String;

    fn from_str(s: &str) -> (r: Result<Self, String>)
        ensures
            match r {
                Ok(priority) => priority_of_word(s@) == Some(priority),
                Err(e) => priority_of_word(s@).is_none() && e@ == "unknown priority: '"@ + s@
                    + "' (expected: low, medium, high, critical)"@,
            },
    {
        Priority::parse(s)
    }
}

/// A top-level grouping label for stories.
#[derive(Debug)]
pub struct Epic {
    pub id: i64,
    pub title: String,
    pub description: String,
    pub color: String,
}

/// The mathematical content of an [`Epic`].
pub struct EpicView {
    pub id: i64,
    pub title: Seq<char>,
    pub description: Seq<char>,
    pub color: Seq<char>,
}

impl View for Epic {
    type V = EpicView;

    open spec fn view(&self) -> EpicView {
        EpicView {
            id: self.id,
            title: self.title@,
            description: self.description@,
            color: self.color@,
        }
    }
}

impl Clone for Epic {
    fn clone(&self) -> (r: Self)
        ensures
            r@ == self@,
    {
        Epic {
            id: self.id,
            title: self.title.clone(),
            description: self.description.clone(),
            color: self.color.clone(),
        }
    }
}

/// A unit of trackable work; it lives in exactly one status column.
#[derive(Debug)]
pub struct Story {
    pub id: i64,
    pub epic_id: Option<i64>,
    pub title: String,
    pub description: String,
    pub status: Status,
    pub priority: Priority,
    pub created_at: String,
    pub updated_at: String,
}

/// The mathematical content of a [`Story`].
pub struct StoryView {
    pub id: i64,
    pub epic_id: Option<i64>,
    pub title: Seq<char>,
    pub description: Seq<char>,
    pub status: Status,
    pub priority: Priority,
    pub created_at: Seq<char>,
    pub updated_at: Seq<char>,
}

impl View for Story {
    type V = StoryView;

    open spec fn view(&self) -> StoryView {
        StoryView {
            id: self.id,
            epic_id: self.epic_id,
            title: self.title@,
            description: self.description@,
            status: self.status,
            priority: self.priority,
            created_at: self.created_at@,
            updated_at: self.updated_at@,
        }
    }
}

impl Clone for Story {
    fn clone(&self) -> (r: Self)
        ensures
            r@ == self@,
    {
        Story {
            id: self.id,
            epic_id: self.epic_id,
            title: self.title.clone(),
            description: self.description.clone(),
            status: self.status,
            priority: self.priority,
            created_at: self.created_at.clone(),
            updated_at: self.updated_at.clone(),
        }
    }
}

/// A checklist item owned by exactly one story.
#[derive(Debug)]
pub struct Task {
    pub id: i64,
    pub story_id: i64,
    pub title: String,
    pub done: bool,
    pub sort_order: i64,
}

/// The mathematical content of a [`Task`].
pub struct TaskView {
    pub id: i64,
    pub story_id: i64,
    pub title: Seq<char>,
    pub done: bool,
    pub sort_order: i64,
}

impl View for Task {
    type V = TaskView;

    open spec fn view(&self) -> TaskView {
        TaskView {
            id: self.id,
            story_id: self.story_id,
            title: self.title@,
            done: self.done,
            sort_order: self.sort_order,
        }
    }
}

impl Clone for Task {
    fn clone(&self) -> (r: Self)
        ensures
            r@ == self@,
    {
        Task {
            id: self.id,
            story_id: self.story_id,
            title: self.title.clone(),
            done: self.done,
            sort_order: self.sort_order,
        }
    }
}

/// The contents of a list of stories.
pub open spec fn stories_view(stories: Seq<Story>) -> Seq<StoryView> {
    stories.map_values(|s: Story| s@)
}

/// The contents of a list of epics.
pub open spec fn epics_view(epics: Seq<Epic>) -> Seq<EpicView> {
    epics.map_values(|e: Epic| e@)
}

/// The contents of a list of tasks.
pub open spec fn tasks_view(tasks: Seq<Task>) -> Seq<TaskView> {
    tasks.map_values(|t: Task| t@)
}

} // verus!
