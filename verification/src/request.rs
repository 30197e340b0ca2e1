//! What a dispatch asks of the store and what the store answers.

use vstd::prelude::*;
use crate::db::{Database, StoreError};
use crate::models::{Epic, EpicView, Priority, Status, Story, StoryView};
use crate::refresh::{
    board_statements, board_statements_of, epics_load_view, prepared_views, run_board, BoardLoad,
    BoardLoadView,
};
use crate::statements::{
    delete_story, delete_story_statement, insert_story, insert_story_statement, select_epics,
    select_epics_statement, select_story, select_story_statement, update_story_description,
    update_story_description_statement, update_story_status, update_story_status_statement,
    update_story_title, update_story_title_statement, Prepared, PreparedView,
};

verus! {

/// The one change that a dispatch may ask of the store.
pub enum StoreWrite {
    MoveStory { id: i64, status: Status },
    /// A new story of medium priority without a description.
    CreateStory { title: String, status: Status, epic_id: Option<i64> },
    DeleteStory { id: i64 },
    RenameStory { id: i64, title: String },
    DescribeStory { id: i64, description: String },
}

/// The mathematical content of a [`StoreWrite`].
pub enum StoreWriteView {
    MoveStory { id: i64, status: Status },
    CreateStory { title: Seq<char>, status: Status, epic_id: Option<i64> },
    DeleteStory { id: i64 },
    RenameStory { id: i64, title: Seq<char> },
    DescribeStory { id: i64, description: Seq<char> },
}

impl View for StoreWrite {
    type V = StoreWriteView;

    open spec fn view(&self) -> StoreWriteView {
        match *self {
            StoreWrite::MoveStory { id, status } => StoreWriteView::MoveStory { id, status },
            StoreWrite::CreateStory { title, status, epic_id } => StoreWriteView::CreateStory {
                title: title@,
                status,
                epic_id,
            },
            StoreWrite::DeleteStory { id } => StoreWriteView::DeleteStory { id },
            StoreWrite::RenameStory { id, title } => StoreWriteView::RenameStory {
                id,
                title: title@,
            },
            StoreWrite::DescribeStory { id, description } => StoreWriteView::DescribeStory {
                id,
                description: description@,
            },
        }
    }
}

/// What a dispatch reads back from the store after its change, if any.
#[derive(Debug, Clone, Copy, PartialEq, Eq, Structural)]
pub enum StoreRead {
    /// The four columns, restricted to an epic if one is given, and the epics.
    Board { epic_filter: Option<i64> },
    /// One story by id.
    Story { id: i64 },
    /// The epics alone.
    Epics,
}

/// What an action needs from the store: at most one change, then at most one
/// read.
pub struct StoreRequest {
    pub write: Option<StoreWrite>,
    pub read: Option<StoreRead>,
}

/// The mathematical content of a [`StoreRequest`].
pub struct StoreRequestView {
    pub write: Option<StoreWriteView>,
    pub read: Option<StoreRead>,
}

impl View for StoreRequest {
    type V = StoreRequestView;

    open spec fn view(&self) -> StoreRequestView {
        StoreRequestView {
            write: match self.write {
                Some(write) => Some(write@),
                None => None,
            },
            read: self.read,
        }
    }
}

impl StoreRequestView {
    /// Whether the request reads the board back.
    pub open spec fn reads_board(self) -> bool {
        match self.read {
            Some(StoreRead::Board { .. }) => true,
            _ => false,
        }
    }

    /// Whether the request reads one story back.
    pub open spec fn reads_story(self) -> bool {
        match self.read {
            Some(StoreRead::Story { .. }) => true,
            _ => false,
        }
    }

    /// Whether the request reads the epics alone.
    pub open spec fn reads_epics(self) -> bool {
        self.read == Some(StoreRead::Epics)
    }
}

/// The request of an action that stays away from the store.
pub open spec fn no_request() -> StoreRequestView {
    StoreRequestView { write: None, read: None }
}

/// The store's answer to a [`StoreRequest`].
pub struct StoreReply {
    /// How the change went; `Ok` where none was asked for.
    pub write: Result<(), StoreError>,
    /// The reloaded board, where one was asked for.
    pub board: Option<BoardLoad>,
    /// The story read back, where one was asked for and found.
    pub story: Option<Story>,
    /// The outcome of listing the epics, where that was asked for.
    pub epics: Option<Result<Vec<Epic>, StoreError>>,
}

/// The mathematical content of a [`StoreReply`]; of a failure it keeps the
/// text.
#[verifier::ext_equal]
pub struct StoreReplyView {
    pub write_error: Option<Seq<char>>,
    pub board: Option<BoardLoadView>,
    pub story: Option<StoryView>,
    pub epics: Option<Result<Seq<EpicView>, Seq<char>>>,
}

impl View for StoreReply {
    type V = StoreReplyView;

    open spec fn view(&self) -> StoreReplyView {
        StoreReplyView {
            write_error: match self.write {
                Ok(_) => None,
                Err(e) => Some(e.text()),
            },
            board: match self.board {
                Some(board) => Some(board@),
                None => None,
            },
            story: match self.story {
                Some(story) => Some(story@),
                None => None,
            },
            epics: match self.epics {
                Some(loaded) => Some(epics_load_view(loaded)),
                None => None,
            },
        }
    }
}

/// The answer to a request that asked for nothing.
pub open spec fn no_reply() -> StoreReplyView {
    StoreReplyView { write_error: None, board: None, story: None, epics: None }
}

impl StoreReplyView {
    /// A board in the reply has its four columns.
    pub open spec fn shaped(self) -> bool {
        self.board matches Some(board) ==> board.shaped()
    }

    /// Whether the reply answers the request: it reports a failed change
    /// only if a change was asked for, and holds what was to be read and
    /// nothing else. A story that could not be read back is left out.
    pub open spec fn fits(self, request: StoreRequestView) -> bool {
        &&& self.shaped()
        &&& request.write.is_none() ==> self.write_error.is_none()
        &&& self.board.is_some() <==> request.reads_board()
        &&& self.story.is_some() ==> request.reads_story()
        &&& self.epics.is_some() <==> request.reads_epics()
    }
}

impl StoreRequest {
    /// The request of an action that stays away from the store.
    pub fn nothing() -> (r: StoreRequest)
        ensures
            r@ == no_request(),
    {
        StoreRequest { write: None, read: None }
    }
}

impl StoreReply {
    /// The answer to a request that asked for nothing.
    pub fn nothing() -> (r: StoreReply)
        ensures
            r@ == no_reply(),
    {
        StoreReply { write: Ok(()), board: None, story: None, epics: None }
    }
}

impl StoreWriteView {
    /// The statement that makes the change. A new story has an empty
    /// description and medium priority.
    pub open spec fn statement(self) -> PreparedView {
        match self {
            StoreWriteView::MoveStory { id, status } => update_story_status_statement(id, status),
            StoreWriteView::CreateStory { title, status, epic_id } => insert_story_statement(
                title,
                ""@,
                epic_id,
                status,
                Priority::Medium,
            ),
            StoreWriteView::DeleteStory { id } => delete_story_statement(id),
            StoreWriteView::RenameStory { id, title } => update_story_title_statement(id, title),
            StoreWriteView::DescribeStory { id, description } => update_story_description_statement(
                id,
                description,
            ),
        }
    }
}

impl StoreRead {
    /// The statements that make the read, in the order in which they run:
    /// five for the board, one for a story, one for the epics.
    pub open spec fn statements(self) -> Seq<PreparedView> {
        match self {
            StoreRead::Board { epic_filter } => board_statements_of(epic_filter),
            StoreRead::Story { id } => seq![select_story_statement(id)],
            StoreRead::Epics => seq![select_epics_statement()],
        }
    }
}

/// Makes the statement of a change.
pub fn write_statement(write: &StoreWrite) -> (s: Prepared)
    ensures
        s@ == write@.statement(),
{
    match write {
        StoreWrite::MoveStory { id, status } => update_story_status(*id, *status),
        StoreWrite::CreateStory { title, status, epic_id } => insert_story(
            title.as_str(),
            "",
            *epic_id,
            *status,
            Priority::Medium,
        ),
        StoreWrite::DeleteStory { id } => delete_story(*id),
        StoreWrite::RenameStory { id, title } => update_story_title(*id, title.as_str()),
        StoreWrite::DescribeStory { id, description } => update_story_description(
            *id,
            description.as_str(),
        ),
    }
}

/// Makes the statements of a read.
pub fn read_statements(read: StoreRead) -> (statements: Vec<Prepared>)
    ensures
        prepared_views(statements@) == read.statements(),
{
    match read {
        StoreRead::Board { epic_filter } => board_statements(epic_filter),
        StoreRead::Story { id } => {
            let statements = vec![select_story(id)];
            proof {
                assert(prepared_views(statements@) =~= read.statements());
            }
            statements
        },
        StoreRead::Epics => {
            let statements = vec![select_epics()];
            proof {
                assert(prepared_views(statements@) =~= read.statements());
            }
            statements
        },
    }
}

/// Asks the store for what a request names: the change first, then the read,
/// whether or not the change failed. It runs the statement that
/// [`write_statement`] makes of the change and the statements that
/// [`read_statements`] makes of the read, and no other.
///
/// Whatever the store answers, the reply fits the request.
pub fn perform(db: &Database, request: &StoreRequest) -> (reply: StoreReply)
    ensures
        reply@.fits(request@),
{
    let write = match &request.write {
        Some(write) => db.execute(&write_statement(write)),
        None => Ok(()),
    };
    match request.read {
        Some(read) => {
            let statements = read_statements(read);
            assert(statements@.len() == prepared_views(statements@).len());
            match read {
                StoreRead::Board { .. } => StoreReply {
                    write,
                    board: Some(run_board(db, &statements)),
                    story: None,
                    epics: None,
                },
                StoreRead::Story { .. } => StoreReply {
                    write,
                    board: None,
                    story: match db.read_story(&statements[0]) {
                        Ok(story) => Some(story),
                        Err(_) => None,
                    },
                    epics: None,
                },
                StoreRead::Epics => StoreReply {
                    write,
                    board: None,
                    story: None,
                    epics: Some(db.read_epics(&statements[0])),
                },
            }
        },
        None => StoreReply { write, board: None, story: None, epics: None },
    }
}

} // verus!
