//! Refresh: reloading the cached lists from the store and restoring the
//! selection invariant.

use vstd::prelude::*;
use vstd::string::StringExecFns;
use crate::app::{App, AppView};
use crate::db::{Database, StoreError};
use crate::models::{
    epics_view, status_at, stories_view, Epic, EpicView, Status, Story, StoryView,
};
use crate::statements::{
    select_epics, select_epics_statement, select_stories, select_stories_statement, Prepared,
    PreparedView,
};
use crate::text::join3;

verus! {

/// What one reload of the board brought back: a list or a failure for each
/// status column and for the epics. One failure does not stop the others.
pub struct BoardLoad {
    pub todo: Result<Vec<Story>, StoreError>,
    pub in_progress: Result<Vec<Story>, StoreError>,
    pub in_review: Result<Vec<Story>, StoreError>,
    pub done: Result<Vec<Story>, StoreError>,
    pub epics: Result<Vec<Epic>, StoreError>,
}

/// The mathematical content of a [`BoardLoad`]: the four column loads in
/// column order, each a list or the text of its failure, and the epics.
#[verifier::ext_equal]
pub struct BoardLoadView {
    pub columns: Seq<Result<Seq<StoryView>, Seq<char>>>,
    pub epics: Result<Seq<EpicView>, Seq<char>>,
}

/// The content of one column load.
pub open spec fn stories_load_view(loaded: Result<Vec<Story>, StoreError>) -> Result<
    Seq<StoryView>,
    Seq<char>,
> {
    match loaded {
        Ok(stories) => Ok(stories_view(stories@)),
        Err(e) => Err(e.text()),
    }
}

/// The content of an epics load.
pub open spec fn epics_load_view(loaded: Result<Vec<Epic>, StoreError>) -> Result<
    Seq<EpicView>,
    Seq<char>,
> {
    match loaded {
        Ok(epics) => Ok(epics_view(epics@)),
        Err(e) => Err(e.text()),
    }
}

impl View for BoardLoad {
    type V = BoardLoadView;

    open spec fn view(&self) -> BoardLoadView {
        BoardLoadView {
            columns: seq![
                stories_load_view(self.todo),
                stories_load_view(self.in_progress),
                stories_load_view(self.in_review),
                stories_load_view(self.done),
            ],
            epics: epics_load_view(self.epics),
        }
    }
}

impl BoardLoadView {
    /// A load has one entry for each of the four columns.
    pub open spec fn shaped(self) -> bool {
        self.columns.len() == 4
    }

    /// Whether every load succeeded.
    pub open spec fn complete(self) -> bool {
        &&& forall|i: int| 0 <= i < 4 ==> (#[trigger] self.columns[i]).is_ok()
        &&& self.epics.is_ok()
    }
}

/// The view of every load has its four columns.
pub proof fn lemma_load_is_shaped(board: BoardLoad)
    ensures
        board@.shaped(),
{
}

/// The message for a column that could not be loaded.
pub open spec fn column_failure(column: int, text: Seq<char>) -> Seq<char> {
    "Error loading "@ + status_at(column).label() + ": "@ + text
}

/// The message for epics that could not be loaded.
pub open spec fn epics_failure(text: Seq<char>) -> Seq<char> {
    "Error loading epics: "@ + text
}

impl AppView {
    /// The state after one column load: the loaded list replaces the cached
    /// one wholesale; a failure leaves the cache and becomes the message.
    pub open spec fn with_column(
        self,
        column: int,
        loaded: Result<Seq<StoryView>, Seq<char>>,
    ) -> AppView {
        match loaded {
            Ok(stories) => AppView { columns: self.columns.update(column, stories), ..self },
            Err(text) => AppView { status_message: Some(column_failure(column, text)), ..self },
        }
    }

    /// The state after the epics load, likewise.
    pub open spec fn with_epics(self, loaded: Result<Seq<EpicView>, Seq<char>>) -> AppView {
        match loaded {
            Ok(epics) => AppView { epics, ..self },
            Err(text) => AppView { status_message: Some(epics_failure(text)), ..self },
        }
    }

    /// The state after a refresh: the four columns and the epics are taken
    /// from the load in this order, then every card index is clamped.
    pub open spec fn refresh(self, board: BoardLoadView) -> AppView {
        self.with_column(0, board.columns[0]).with_column(1, board.columns[1]).with_column(
            2,
            board.columns[2],
        ).with_column(3, board.columns[3]).with_epics(board.epics).clamped()
    }
}

/// After a refresh the selection invariant holds again for the cards, and a
/// valid selected column stays valid.
pub proof fn lemma_refresh_restores_selection(s: AppView, board: BoardLoadView)
    requires
        s.shaped(),
        board.shaped(),
    ensures
        s.refresh(board).shaped(),
        s.refresh(board).cards_in_range(),
        s.refresh(board).selected_column == s.selected_column,
        s.selected_column < 4 ==> s.refresh(board).wf(),
{
}

/// What a refresh leaves in each cache: the loaded list where the load
/// succeeded, the old list where it failed. A refresh in which nothing failed
/// leaves the message alone. Nothing but caches, card indices and message
/// changes.
pub proof fn lemma_refresh_contents(s: AppView, board: BoardLoadView)
    requires
        s.shaped(),
        board.shaped(),
    ensures
        forall|i: int|
            0 <= i < 4 ==> #[trigger] s.refresh(board).columns[i] == (match board.columns[i] {
                Ok(stories) => stories,
                Err(_) => s.columns[i],
            }),
        s.refresh(board).epics == (match board.epics {
            Ok(epics) => epics,
            Err(_) => s.epics,
        }),
        board.complete() ==> s.refresh(board).status_message == s.status_message,
        s.refresh(board) == (AppView {
            columns: s.refresh(board).columns,
            epics: s.refresh(board).epics,
            selected_card: s.refresh(board).selected_card,
            status_message: s.refresh(board).status_message,
            ..s
        }),
{
}

/// Refreshing twice from the same load yields the same state as refreshing
/// once: identical cached lists, selection and message.
pub proof fn lemma_refresh_idempotent(s: AppView, board: BoardLoadView)
    requires
        s.shaped(),
        board.shaped(),
    ensures
        s.refresh(board).refresh(board) == s.refresh(board),
{
    let once = s.refresh(board);
    let twice = once.refresh(board);
    assert(twice.columns =~= once.columns);
    assert(twice.selected_card =~= once.selected_card);
}

impl App {
    /// Takes the outcome of loading the column of `status` into the cache.
    pub fn store_column(&mut self, status: Status, loaded: Result<Vec<Story>, StoreError>)
        ensures
            final(self)@ == old(self)@.with_column(status.rank(), stories_load_view(loaded)),
    {
        let column = status.column();
        match loaded {
            Ok(stories) => {
                self.columns[column] = stories;
                proof {
                    let after = old(self)@.with_column(status.rank(), stories_load_view(loaded));
                    assert(self@.columns =~= after.columns);
                    assert(self@.selected_card =~= after.selected_card);
                }
            },
            Err(e) => {
                let mut message = join3("Error loading ", status.as_str(), ": ");
                message.append(e.to_string().as_str());
                self.status_message = Some(message);
                proof {
                    let after = old(self)@.with_column(status.rank(), stories_load_view(loaded));
                    assert(self@.columns =~= after.columns);
                    assert(self@.selected_card =~= after.selected_card);
                }
            },
        }
    }

    /// Takes the outcome of loading the epics into the cache.
    pub fn store_epics(&mut self, loaded: Result<Vec<Epic>, StoreError>)
        ensures
            final(self)@ == old(self)@.with_epics(epics_load_view(loaded)),
    {
        match loaded {
            Ok(epics) => {
                self.epics = epics;
            },
            Err(e) => {
                let mut message = String::from_str("Error loading epics: ");
                message.append(e.to_string().as_str());
                self.status_message = Some(message);
            },
        }
        proof {
            let after = old(self)@.with_epics(epics_load_view(loaded));
            assert(self@.columns =~= after.columns);
            assert(self@.selected_card =~= after.selected_card);
        }
    }

    /// Refreshes the state from a finished load: replaces the cached lists
    /// wholesale, records failures in the message, and clamps the selection.
    pub fn apply_refresh(&mut self, board: BoardLoad)
        ensures
            final(self)@ == old(self)@.refresh(board@),
            final(self)@.cards_in_range(),
    {
        let BoardLoad { todo, in_progress, in_review, done, epics } = board;
        self.store_column(Status::ToDo, todo);
        self.store_column(Status::InProgress, in_progress);
        self.store_column(Status::InReview, in_review);
        self.store_column(Status::Done, done);
        self.store_epics(epics);
        self.clamp_selections();
    }
}

/// The contents of a list of statements.
pub open spec fn prepared_views(statements: Seq<Prepared>) -> Seq<PreparedView> {
    statements.map_values(|s: Prepared| s@)
}

/// The five statements of a reload: the stories of each status in column
/// order, restricted to an epic if one is given, then the epics.
pub open spec fn board_statements_of(epic_filter: Option<i64>) -> Seq<PreparedView> {
    seq![
        select_stories_statement(Some(Status::ToDo), epic_filter),
        select_stories_statement(Some(Status::InProgress), epic_filter),
        select_stories_statement(Some(Status::InReview), epic_filter),
        select_stories_statement(Some(Status::Done), epic_filter),
        select_epics_statement(),
    ]
}

/// Makes the five statements of a reload.
pub fn board_statements(epic_filter: Option<i64>) -> (statements: Vec<Prepared>)
    ensures
        prepared_views(statements@) == board_statements_of(epic_filter),
        statements@.len() == 5,
{
    let statements = vec![
        select_stories(Some(Status::ToDo), epic_filter),
        select_stories(Some(Status::InProgress), epic_filter),
        select_stories(Some(Status::InReview), epic_filter),
        select_stories(Some(Status::Done), epic_filter),
        select_epics(),
    ];
    proof {
        assert(prepared_views(statements@) =~= board_statements_of(epic_filter));
    }
    statements
}

/// Runs the five statements of a reload, each whether or not the one before
/// it failed, and reads the first four as stories and the fifth as epics.
///
/// What is loaded is the store's to decide. Whatever it answers, a list
/// that could not be loaded has failed outright: no load is ever reported
/// as not found.
pub fn run_board(db: &Database, statements: &Vec<Prepared>) -> (board: BoardLoad)
    requires
        statements@.len() == 5,
    ensures
        board@.shaped(),
        board.todo matches Err(e) ==> e is Failed,
        board.in_progress matches Err(e) ==> e is Failed,
        board.in_review matches Err(e) ==> e is Failed,
        board.done matches Err(e) ==> e is Failed,
        board.epics matches Err(e) ==> e is Failed,
{
    BoardLoad {
        todo: db.read_stories(&statements[0]),
        in_progress: db.read_stories(&statements[1]),
        in_review: db.read_stories(&statements[2]),
        done: db.read_stories(&statements[3]),
        epics: db.read_epics(&statements[4]),
    }
}

/// Loads the four status columns, restricted to an epic if one is given, and
/// the epics, by running [`board_statements`].
///
/// What is loaded is the store's to decide. Whatever it answers, a list
/// that could not be loaded has failed outright: no load is ever reported
/// as not found.
pub fn load_board(db: &Database, epic_filter: Option<i64>) -> (board: BoardLoad)
    ensures
        board@.shaped(),
        board.todo matches Err(e) ==> e is Failed,
        board.in_progress matches Err(e) ==> e is Failed,
        board.in_review matches Err(e) ==> e is Failed,
        board.done matches Err(e) ==> e is Failed,
        board.epics matches Err(e) ==> e is Failed,
{
    let statements = board_statements(epic_filter);
    run_board(db, &statements)
}

/// Resynchronizes the cached lists with the store and restores the selection
/// invariant.
///
/// Whatever the store answers, the new state is the old one refreshed from
/// some load, and every card index is in range.
pub fn refresh_board(db: &Database, app: &mut App)
    ensures
        exists|board: BoardLoadView|
            board.shaped() && final(app)@ == #[trigger] old(app)@.refresh(board),
        final(app)@.cards_in_range(),
        final(app).selected_column == old(app).selected_column,
        old(app).selected_column < 4 ==> final(app).wf(),
{
    let board = load_board(db, app.epic_filter);
    proof {
        lemma_refresh_restores_selection(app@, board@);
    }
    app.apply_refresh(board);
}

} // verus!
