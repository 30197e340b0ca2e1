//! The batch interface: runs one command against the store and returns its
//! structured result. It does not go through the interactive state.

use vstd::prelude::*;
use crate::cli::{Command, EpicAction, StoryAction, TaskAction};
use crate::db::{Database, StoreError};
use crate::epics::{epic_row, is_first_with_id};
use crate::models::{epics_view, Epic, Priority, Status, Story, Task};

verus! {

/// The stories of the board, column by column.
pub struct BoardStories {
    pub todo: Vec<Story>,
    pub in_progress: Vec<Story>,
    pub in_review: Vec<Story>,
    pub done: Vec<Story>,
}

/// The structured result of a command.
pub enum Output {
    Epic(Epic),
    Epics(Vec<Epic>),
    Story(Story),
    Stories(Vec<Story>),
    Task(Task),
    Tasks(Vec<Task>),
    /// The id of the item that was deleted.
    Deleted(i64),
    Board(BoardStories),
}

/// Why a command did not produce a result.
#[derive(Debug)]
pub enum CommandError {
    /// The store refused an operation of the command.
    Store(StoreError),
    /// An epic was created but is not among the epics listed afterwards.
    CreatedEpicMissing,
}

impl CommandError {
    /// The text of the error, as shown to the user.
    pub open spec fn text(self) -> Seq<char> {
        match self {
            CommandError::Store(e) => e.text(),
            CommandError::CreatedEpicMissing => "Failed to retrieve created epic"@,
        }
    }

    /// The text of the error, as shown to the user.
    pub fn to_string(&self) -> (r: String)
        ensures
            r@ == self.text(),
    {
        match self {
            CommandError::Store(e) => e.to_string(),
            CommandError::CreatedEpicMissing => "Failed to retrieve created epic".to_string(),
        }
    }
}

/// Whether `output` is a result of the kind that the epic command returns;
/// a delete returns the id it was given.
pub open spec fn answers_epic(action: EpicAction, output: Output) -> bool {
    match action {
        EpicAction::Create { .. } => output is Epic,
        EpicAction::List => output is Epics,
        EpicAction::Delete { id } => output == Output::Deleted(id),
    }
}

/// Whether `output` is a result of the kind that the story command returns;
/// a delete returns the id it was given.
pub open spec fn answers_story(action: StoryAction, output: Output) -> bool {
    match action {
        StoryAction::Create { .. } => output is Story,
        StoryAction::List { .. } => output is Stories,
        StoryAction::Get { .. } => output is Story,
        StoryAction::Update { .. } => output is Story,
        StoryAction::Delete { id } => output == Output::Deleted(id),
    }
}

/// Whether `output` is a result of the kind that the task command returns;
/// a delete returns the id it was given.
pub open spec fn answers_task(action: TaskAction, output: Output) -> bool {
    match action {
        TaskAction::Create { .. } => output is Task,
        TaskAction::List { .. } => output is Tasks,
        TaskAction::Toggle { .. } => output is Task,
        TaskAction::Delete { id } => output == Output::Deleted(id),
    }
}

/// Whether `output` is a result of the kind that the command returns.
pub open spec fn answers(command: Command, output: Output) -> bool {
    match command {
        Command::Epic { action } => answers_epic(action, output),
        Command::Story { action } => answers_story(action, output),
        Command::Task { action } => answers_task(action, output),
        Command::Board { .. } => output is Board,
    }
}

/// The first epic with this id among those listed.
pub fn find_epic(epics: &Vec<Epic>, id: i64) -> (r: Option<Epic>)
    ensures
        match r {
            Some(epic) => exists|i: int|
                is_first_with_id(epics_view(epics@), id, i) && epic@ == epics@[i]@,
            None => forall|i: int| 0 <= i < epics@.len() ==> epics@[i].id != id,
        },
{
    let row = epic_row(epics, Some(id));
    if row == 0 {
        None
    } else {
        let found = epics[row - 1].clone();
        proof {
            assert(epics_view(epics@)[row - 1] == epics@[row - 1]@);
        }
        Some(found)
    }
}

/// The result of creating an epic, from the id that the store gave it and
/// the epics listed afterwards: the epic with that id, which must be listed.
pub fn created_epic(epics: &Vec<Epic>, id: i64) -> (r: Result<Output, CommandError>)
    ensures
        match r {
            Ok(output) => output matches Output::Epic(epic) && exists|i: int|
                is_first_with_id(epics_view(epics@), id, i) && epic@ == epics@[i]@,
            Err(e) => e is CreatedEpicMissing && forall|i: int|
                0 <= i < epics@.len() ==> epics@[i].id != id,
        },
{
    match find_epic(epics, id) {
        Some(epic) => Ok(Output::Epic(epic)),
        None => Err(CommandError::CreatedEpicMissing),
    }
}

/// Wraps a store result as a command result.
fn stored<T>(result: Result<T, StoreError>) -> (r: Result<T, CommandError>)
    ensures
        match result {
            Ok(value) => r == Ok::<T, CommandError>(value),
            Err(e) => r == Err::<T, CommandError>(CommandError::Store(e)),
        },
{
    match result {
        Ok(value) => Ok(value),
        Err(e) => Err(CommandError::Store(e)),
    }
}

/// One operation on the store, as a batch command asks for it.
#[derive(Debug)]
pub enum StoreOp {
    CreateEpic { title: String, description: String, color: String },
    /// Lists the epics and picks the one created just before.
    ReadCreatedEpic,
    ListEpics,
    DeleteEpic { id: i64 },
    CreateStory { title: String, body: String, epic: Option<i64>, status: Status, priority: Priority },
    /// Reads the story created just before.
    ReadCreatedStory,
    ListStories { status: Option<Status>, epic: Option<i64> },
    GetStory { id: i64 },
    SetTitle { id: i64, title: String },
    SetStatus { id: i64, status: Status },
    SetPriority { id: i64, priority: Priority },
    SetBody { id: i64, body: String },
    SetEpic { id: i64, epic: i64 },
    DeleteStory { id: i64 },
    CreateTask { story_id: i64, title: String },
    /// Reads the task created just before.
    ReadCreatedTask,
    ListTasks { story_id: i64 },
    ToggleTask { id: i64 },
    GetTask { id: i64 },
    DeleteTask { id: i64 },
    /// Loads one column of the board.
    LoadColumn { status: Status, epic: Option<i64> },
}

/// The operations of an epic command, in the order in which they run.
pub open spec fn epic_plan(action: EpicAction) -> Seq<StoreOp> {
    match action {
        EpicAction::Create { title, description, color } => seq![
            StoreOp::CreateEpic { title, description, color },
            StoreOp::ReadCreatedEpic,
        ],
        EpicAction::List => seq![StoreOp::ListEpics],
        EpicAction::Delete { id } => seq![StoreOp::DeleteEpic { id }],
    }
}

/// The operations of a story update: one change for each field that is
/// given, in the order title, status, priority, body, epic, then the read of
/// the story.
pub open spec fn update_plan(
    id: i64,
    title: Option<String>,
    status: Option<Status>,
    priority: Option<Priority>,
    body: Option<String>,
    epic: Option<i64>,
) -> Seq<StoreOp> {
    (match title {
        Some(title) => seq![StoreOp::SetTitle { id, title }],
        None => seq![],
    }) + (match status {
        Some(status) => seq![StoreOp::SetStatus { id, status }],
        None => seq![],
    }) + (match priority {
        Some(priority) => seq![StoreOp::SetPriority { id, priority }],
        None => seq![],
    }) + (match body {
        Some(body) => seq![StoreOp::SetBody { id, body }],
        None => seq![],
    }) + (match epic {
        Some(epic) => seq![StoreOp::SetEpic { id, epic }],
        None => seq![],
    }) + seq![StoreOp::GetStory { id }]
}

/// The operations of a story command, in the order in which they run.
pub open spec fn story_plan(action: StoryAction) -> Seq<StoreOp> {
    match action {
        StoryAction::Create { title, epic, priority, body, status } => seq![
            StoreOp::CreateStory { title, body, epic, status, priority },
            StoreOp::ReadCreatedStory,
        ],
        StoryAction::List { epic, status } => seq![StoreOp::ListStories { status, epic }],
        StoryAction::Get { id } => seq![StoreOp::GetStory { id }],
        StoryAction::Update { id, title, status, priority, body, epic } => update_plan(
            id,
            title,
            status,
            priority,
            body,
            epic,
        ),
        StoryAction::Delete { id } => seq![StoreOp::DeleteStory { id }],
    }
}

/// The operations of a task command, in the order in which they run.
pub open spec fn task_plan(action: TaskAction) -> Seq<StoreOp> {
    match action {
        TaskAction::Create { story_id, title } => seq![
            StoreOp::CreateTask { story_id, title },
            StoreOp::ReadCreatedTask,
        ],
        TaskAction::List { story_id } => seq![StoreOp::ListTasks { story_id }],
        TaskAction::Toggle { id } => seq![StoreOp::ToggleTask { id }, StoreOp::GetTask { id }],
        TaskAction::Delete { id } => seq![StoreOp::DeleteTask { id }],
    }
}

/// The operations of the board command: the four columns in order.
pub open spec fn board_plan(epic: Option<i64>) -> Seq<StoreOp> {
    seq![
        StoreOp::LoadColumn { status: Status::ToDo, epic },
        StoreOp::LoadColumn { status: Status::InProgress, epic },
        StoreOp::LoadColumn { status: Status::InReview, epic },
        StoreOp::LoadColumn { status: Status::Done, epic },
    ]
}

/// The operations of a command, in the order in which they run.
pub open spec fn command_plan(command: Command) -> Seq<StoreOp> {
    match command {
        Command::Epic { action } => epic_plan(action),
        Command::Story { action } => story_plan(action),
        Command::Task { action } => task_plan(action),
        Command::Board { epic } => board_plan(epic),
    }
}

/// Whether `output` is what the operation yields where it succeeds: nothing
/// for a change and for a column of the board, the id for a delete, and what
/// was read for a read.
pub open spec fn yields(op: StoreOp, output: Option<Output>) -> bool {
    match op {
        StoreOp::ReadCreatedEpic => output matches Some(Output::Epic(_)),
        StoreOp::ListEpics => output matches Some(Output::Epics(_)),
        StoreOp::ReadCreatedStory | StoreOp::GetStory { .. } => output matches Some(
            Output::Story(_),
        ),
        StoreOp::ListStories { .. } => output matches Some(Output::Stories(_)),
        StoreOp::ReadCreatedTask | StoreOp::GetTask { .. } => output matches Some(Output::Task(_)),
        StoreOp::ListTasks { .. } => output matches Some(Output::Tasks(_)),
        StoreOp::DeleteEpic { id } | StoreOp::DeleteStory { id } | StoreOp::DeleteTask { id } =>
            output == Some(Output::Deleted(id)),
        _ => output.is_none(),
    }
}

/// Whether `output` is the result of a run that ended with this operation:
/// what the operation yields, or the board where it yields nothing.
pub open spec fn concludes(op: StoreOp, output: Output) -> bool {
    if yields(op, None) {
        output is Board
    } else {
        yields(op, Some(output))
    }
}

/// Plans an epic command.
pub fn plan_epic(action: EpicAction) -> (ops: Vec<StoreOp>)
    ensures
        ops@ == epic_plan(action),
{
    match action {
        EpicAction::Create { title, description, color } => vec![
            StoreOp::CreateEpic { title, description, color },
            StoreOp::ReadCreatedEpic,
        ],
        EpicAction::List => vec![StoreOp::ListEpics],
        EpicAction::Delete { id } => vec![StoreOp::DeleteEpic { id }],
    }
}

/// Plans a story command.
pub fn plan_story(action: StoryAction) -> (ops: Vec<StoreOp>)
    ensures
        ops@ == story_plan(action),
{
    match action {
        StoryAction::Create { title, epic, priority, body, status } => vec![
            StoreOp::CreateStory { title, body, epic, status, priority },
            StoreOp::ReadCreatedStory,
        ],
        StoryAction::List { epic, status } => vec![StoreOp::ListStories { status, epic }],
        StoryAction::Get { id } => vec![StoreOp::GetStory { id }],
        StoryAction::Update { id, title, status, priority, body, epic } => {
            let mut ops: Vec<StoreOp> = Vec::new();
            if let Some(title) = title {
                ops.push(StoreOp::SetTitle { id, title });
            }
            if let Some(status) = status {
                ops.push(StoreOp::SetStatus { id, status });
            }
            if let Some(priority) = priority {
                ops.push(StoreOp::SetPriority { id, priority });
            }
            if let Some(body) = body {
                ops.push(StoreOp::SetBody { id, body });
            }
            if let Some(epic) = epic {
                ops.push(StoreOp::SetEpic { id, epic });
            }
            ops.push(StoreOp::GetStory { id });
            proof {
                assert(ops@ =~= update_plan(id, title, status, priority, body, epic));
            }
            ops
        },
        StoryAction::Delete { id } => vec![StoreOp::DeleteStory { id }],
    }
}

/// Plans a task command.
pub fn plan_task(action: TaskAction) -> (ops: Vec<StoreOp>)
    ensures
        ops@ == task_plan(action),
{
    match action {
        TaskAction::Create { story_id, title } => vec![
            StoreOp::CreateTask { story_id, title },
            StoreOp::ReadCreatedTask,
        ],
        TaskAction::List { story_id } => vec![StoreOp::ListTasks { story_id }],
        TaskAction::Toggle { id } => vec![StoreOp::ToggleTask { id }, StoreOp::GetTask { id }],
        TaskAction::Delete { id } => vec![StoreOp::DeleteTask { id }],
    }
}

/// Plans the board command.
pub fn plan_board(epic: Option<i64>) -> (ops: Vec<StoreOp>)
    ensures
        ops@ == board_plan(epic),
{
    vec![
        StoreOp::LoadColumn { status: Status::ToDo, epic },
        StoreOp::LoadColumn { status: Status::InProgress, epic },
        StoreOp::LoadColumn { status: Status::InReview, epic },
        StoreOp::LoadColumn { status: Status::Done, epic },
    ]
}

/// Decides which operations a command asks of the store, and in which order.
pub fn plan_command(command: Command) -> (ops: Vec<StoreOp>)
    ensures
        ops@ == command_plan(command),
{
    match command {
        Command::Epic { action } => plan_epic(action),
        Command::Story { action } => plan_story(action),
        Command::Task { action } => plan_task(action),
        Command::Board { epic } => plan_board(epic),
    }
}

/// What a run has gathered so far: the id of the item created last and the
/// columns of the board loaded so far.
pub struct Progress {
    pub created: Option<i64>,
    pub board: BoardStories,
}

/// Runs one operation and returns what it yields. A read of what was
/// created finds nothing where nothing was created before it.
///
/// Whatever the store answers, what comes back is what the operation
/// yields.
pub fn run_op(db: &Database, op: &StoreOp, progress: &mut Progress) -> (r: Result<
    Option<Output>,
    CommandError,
>)
    ensures
        r matches Ok(output) ==> yields(*op, output),
        r matches Err(CommandError::CreatedEpicMissing) ==> *op is ReadCreatedEpic,
{
    match op {
        StoreOp::CreateEpic { title, description, color } => {
            let id = stored(db.create_epic(title.as_str(), description.as_str(), color.as_str()))?;
            progress.created = Some(id);
            Ok(None)
        },
        StoreOp::ReadCreatedEpic => match progress.created {
            Some(id) => {
                let epics = stored(db.list_epics())?;
                match created_epic(&epics, id) {
                    Ok(output) => Ok(Some(output)),
                    Err(e) => Err(e),
                }
            },
            None => Err(CommandError::CreatedEpicMissing),
        },
        StoreOp::ListEpics => {
            let epics = stored(db.list_epics())?;
            Ok(Some(Output::Epics(epics)))
        },
        StoreOp::DeleteEpic { id } => {
            stored(db.delete_epic(*id))?;
            Ok(Some(Output::Deleted(*id)))
        },
        StoreOp::CreateStory { title, body, epic, status, priority } => {
            let id = stored(
                db.create_story(title.as_str(), body.as_str(), *epic, *status, *priority),
            )?;
            progress.created = Some(id);
            Ok(None)
        },
        StoreOp::ReadCreatedStory => match progress.created {
            Some(id) => {
                let story = stored(db.get_story(id))?;
                Ok(Some(Output::Story(story)))
            },
            None => Err(CommandError::Store(StoreError::NotFound)),
        },
        StoreOp::ListStories { status, epic } => {
            let stories = stored(db.list_stories(*status, *epic))?;
            Ok(Some(Output::Stories(stories)))
        },
        StoreOp::GetStory { id } => {
            let story = stored(db.get_story(*id))?;
            Ok(Some(Output::Story(story)))
        },
        StoreOp::SetTitle { id, title } => {
            stored(db.update_story_title(*id, title.as_str()))?;
            Ok(None)
        },
        StoreOp::SetStatus { id, status } => {
            stored(db.update_story_status(*id, *status))?;
            Ok(None)
        },
        StoreOp::SetPriority { id, priority } => {
            stored(db.update_story_priority(*id, *priority))?;
            Ok(None)
        },
        StoreOp::SetBody { id, body } => {
            stored(db.update_story_description(*id, body.as_str()))?;
            Ok(None)
        },
        StoreOp::SetEpic { id, epic } => {
            stored(db.update_story_epic(*id, Some(*epic)))?;
            Ok(None)
        },
        StoreOp::DeleteStory { id } => {
            stored(db.delete_story(*id))?;
            Ok(Some(Output::Deleted(*id)))
        },
        StoreOp::CreateTask { story_id, title } => {
            let id = stored(db.create_task(*story_id, title.as_str()))?;
            progress.created = Some(id);
            Ok(None)
        },
        StoreOp::ReadCreatedTask => match progress.created {
            Some(id) => {
                let task = stored(db.get_task(id))?;
                Ok(Some(Output::Task(task)))
            },
            None => Err(CommandError::Store(StoreError::NotFound)),
        },
        StoreOp::ListTasks { story_id } => {
            let tasks = stored(db.list_tasks(*story_id))?;
            Ok(Some(Output::Tasks(tasks)))
        },
        StoreOp::ToggleTask { id } => {
            stored(db.toggle_task(*id))?;
            Ok(None)
        },
        StoreOp::GetTask { id } => {
            let task = stored(db.get_task(*id))?;
            Ok(Some(Output::Task(task)))
        },
        StoreOp::DeleteTask { id } => {
            stored(db.delete_task(*id))?;
            Ok(Some(Output::Deleted(*id)))
        },
        StoreOp::LoadColumn { status, epic } => {
            let stories = stored(db.list_stories_by_status(*status, *epic))?;
            match status {
                Status::ToDo => {
                    progress.board.todo = stories;
                },
                Status::InProgress => {
                    progress.board.in_progress = stories;
                },
                Status::InReview => {
                    progress.board.in_review = stories;
                },
                Status::Done => {
                    progress.board.done = stories;
                },
            }
            Ok(None)
        },
    }
}

/// Runs the operations in order and stops at the first that fails. The
/// result is what the last operation yields, or the board loaded on the way
/// where it yields nothing.
pub fn run_ops(db: &Database, ops: &Vec<StoreOp>) -> (r: Result<Output, CommandError>)
    ensures
        r matches Ok(output) ==> ops@.len() > 0 ==> concludes(ops@.last(), output),
        r matches Err(CommandError::CreatedEpicMissing) ==> exists|i: int|
            0 <= i < ops@.len() && #[trigger] ops@[i] is ReadCreatedEpic,
{
    let mut progress = Progress {
        created: None,
        board: BoardStories {
            todo: Vec::new(),
            in_progress: Vec::new(),
            in_review: Vec::new(),
            done: Vec::new(),
        },
    };
    let mut output: Option<Output> = None;
    let mut i: usize = 0;
    while i < ops.len()
        invariant
            0 <= i <= ops@.len(),
            i > 0 ==> yields(ops@[i - 1], output),
        decreases ops@.len() - i,
    {
        output = run_op(db, &ops[i], &mut progress)?;
        i += 1;
    }
    match output {
        Some(output) => Ok(output),
        None => Ok(Output::Board(progress.board)),
    }
}

/// Runs an epic command: the operations of [`plan_epic`], by [`run_ops`].
///
/// Whatever the store answers, a result is of the kind of the command.
pub fn handle_epic(action: EpicAction, db: &Database) -> (r: Result<Output, CommandError>)
    ensures
        r matches Ok(output) ==> answers_epic(action, output),
        r matches Err(CommandError::CreatedEpicMissing) ==> action is Create,
{
    let ops = plan_epic(action);
    run_ops(db, &ops)
}

/// Runs a story command: the operations of [`plan_story`], by [`run_ops`].
/// An update changes the given fields one by one and stops at the first that
/// the store refuses.
///
/// Whatever the store answers, a result is of the kind of the command.
pub fn handle_story(action: StoryAction, db: &Database) -> (r: Result<Output, CommandError>)
    ensures
        r matches Ok(output) ==> answers_story(action, output),
        r matches Err(e) ==> e is Store,
{
    let ops = plan_story(action);
    run_ops(db, &ops)
}

/// Runs a task command: the operations of [`plan_task`], by [`run_ops`].
/// Create and toggle return the task as it is stored afterwards.
///
/// Whatever the store answers, a result is of the kind of the command.
pub fn handle_task(action: TaskAction, db: &Database) -> (r: Result<Output, CommandError>)
    ensures
        r matches Ok(output) ==> answers_task(action, output),
        r matches Err(e) ==> e is Store,
{
    let ops = plan_task(action);
    run_ops(db, &ops)
}

/// Loads the board column by column, the operations of [`plan_board`], and
/// stops at the first column that the store refuses.
pub fn handle_board(epic: Option<i64>, db: &Database) -> (r: Result<Output, CommandError>)
    ensures
        r matches Ok(output) ==> output is Board,
        r matches Err(e) ==> e is Store,
{
    let ops = plan_board(epic);
    run_ops(db, &ops)
}

/// Runs one command against the store: the operations of [`plan_command`],
/// by [`run_ops`].
///
/// Whatever the store answers, a result is of the kind of the command, and
/// the id that a delete reports is the id it was given.
pub fn run(command: Command, db: &Database) -> (r: Result<Output, CommandError>)
    ensures
        r matches Ok(output) ==> answers(command, output),
        r matches Err(CommandError::CreatedEpicMissing) ==> command matches Command::Epic {
            action: EpicAction::Create { .. },
        },
{
    let ops = plan_command(command);
    run_ops(db, &ops)
}

} // verus!
