//! Laws of the state machine: what holds of every step, whatever the action
//! and whatever the store answers.

use vstd::prelude::*;
use crate::actions::Action;
use crate::app::{AppView, InputTarget, Mode};
use crate::epics::{first_with_id, is_first_with_id, lemma_filter_row_of_listed};
use crate::input::{key_action, KeyEvent};
use crate::models::{status_at, Status};
use crate::refresh::{lemma_refresh_restores_selection, BoardLoadView};
use crate::request::{
    no_reply, no_request, StoreRead, StoreReplyView, StoreRequestView, StoreWriteView,
};

verus! {

/// Refreshing from the board of a reply keeps the shape of the state and
/// the selected column, and the selection invariant where it held.
proof fn lemma_refreshed_keeps_selection(s: AppView, board: Option<BoardLoadView>)
    requires
        s.shaped(),
        s.selected_column < 4,
        board matches Some(b) ==> b.shaped(),
    ensures
        s.refreshed(board).shaped(),
        s.refreshed(board).selected_column < 4,
        s.wf() ==> s.refreshed(board).wf(),
{
    if let Some(b) = board {
        lemma_refresh_restores_selection(s, b);
    }
}

/// A confirmed input or epic choice keeps the shape of the state and the
/// selected column, and the selection invariant where it held.
proof fn lemma_confirmed_keeps_selection(s: AppView, reply: StoreReplyView)
    requires
        s.shaped(),
        s.selected_column < 4,
        reply.shaped(),
    ensures
        s.confirmed(reply).shaped(),
        s.confirmed(reply).selected_column < 4,
        s.wf() ==> s.confirmed(reply).wf(),
{
    lemma_refreshed_keeps_selection(
        AppView { epic_filter: s.chosen_filter(), mode: Mode::Board, ..s },
        reply.board,
    );
    lemma_refreshed_keeps_selection(s.input_left(), reply.board);
    lemma_refreshed_keeps_selection(s.noted(reply.write_error), reply.board);
}

/// A step keeps the shape of the state and the selected column among the
/// four.
pub proof fn lemma_step_keeps_shape(s: AppView, action: Action, reply: StoreReplyView)
    requires
        s.shaped(),
        s.selected_column < 4,
        reply.shaped(),
    ensures
        s.step(action, reply).shaped(),
        s.step(action, reply).selected_column < 4,
{
    let t = s.cleared();
    match action {
        Action::MoveStoryLeft | Action::MoveStoryRight => {
            lemma_refreshed_keeps_selection(t.noted(reply.write_error), reply.board);
        },
        Action::CloseDetail => {
            lemma_refreshed_keeps_selection(
                AppView { mode: Mode::Board, current_story: None, ..t },
                reply.board,
            );
        },
        Action::OpenEpicList => {
            if let Some(Ok(epics)) = reply.epics {
                if let Some(id) = t.epic_filter {
                    if exists|i: int| is_first_with_id(epics, id, i) {
                        lemma_filter_row_of_listed(epics, id, first_with_id(epics, id));
                    }
                }
            }
        },
        Action::InputConfirm => {
            lemma_confirmed_keeps_selection(t, reply);
        },
        Action::ConfirmYes => {
            lemma_refreshed_keeps_selection(AppView { mode: Mode::Board, ..t }, reply.board);
            lemma_refreshed_keeps_selection(t.noted(reply.write_error), reply.board);
        },
        _ => {},
    }
}

/// The selection invariant is inductive: whatever the action and whatever
/// the store answers, a step from a state in which the selected column is
/// one of the four and every card index is in range leads to such a state.
pub proof fn lemma_step_keeps_selection_invariant(
    s: AppView,
    action: Action,
    reply: StoreReplyView,
)
    requires
        s.wf(),
        reply.shaped(),
    ensures
        s.step(action, reply).wf(),
{
    lemma_step_keeps_shape(s, action, reply);
    let t = s.cleared();
    match action {
        Action::MoveStoryLeft | Action::MoveStoryRight => {
            lemma_refreshed_keeps_selection(t.noted(reply.write_error), reply.board);
        },
        Action::CloseDetail => {
            lemma_refreshed_keeps_selection(
                AppView { mode: Mode::Board, current_story: None, ..t },
                reply.board,
            );
        },
        Action::InputConfirm => {
            lemma_confirmed_keeps_selection(t, reply);
        },
        Action::ConfirmYes => {
            lemma_refreshed_keeps_selection(AppView { mode: Mode::Board, ..t }, reply.board);
            lemma_refreshed_keeps_selection(t.noted(reply.write_error), reply.board);
        },
        _ => {},
    }
}

/// Actions that only navigate, open or leave a view without a store
/// operation behind it, or edit the input buffer ask nothing of the store,
/// and the step they make does not depend on the reply.
pub proof fn lemma_local_actions_stay_local(
    s: AppView,
    action: Action,
    first: StoreReplyView,
    second: StoreReplyView,
)
    requires
        action != Action::MoveStoryLeft,
        action != Action::MoveStoryRight,
        action != Action::CloseDetail,
        action != Action::OpenEpicList,
        action != Action::InputConfirm,
        action != Action::ConfirmYes,
    ensures
        s.request(action) == no_request(),
        s.step(action, first) == s.step(action, second),
{
}

/// A step whose request is empty, answered by the empty reply, changes
/// neither the cached lists nor the filter: only a store answer can.
pub proof fn lemma_no_request_keeps_caches(s: AppView, action: Action)
    requires
        s.request(action) == no_request(),
    ensures
        s.step(action, no_reply()).columns == s.columns,
        s.step(action, no_reply()).epics == s.epics,
        s.step(action, no_reply()).epic_filter == s.epic_filter,
{
}

/// Moving a story past either end of the status chain, or with no story
/// selected, is a no-op: nothing is asked of the store and nothing but the
/// cleared message changes.
pub proof fn lemma_move_without_target_is_noop(s: AppView, towards_done: bool)
    requires
        match s.selected_story() {
            Some(story) => if towards_done {
                story.status == Status::Done
            } else {
                story.status == Status::ToDo
            },
            None => true,
        },
    ensures
        ({
            let action = if towards_done {
                Action::MoveStoryRight
            } else {
                Action::MoveStoryLeft
            };
            &&& s.request(action) == no_request()
            &&& s.step(action, no_reply()) == s.cleared()
        }),
{
}

/// A story move asks the store for the status next to the story's own in
/// the chain, towards the end asked for, and never for anything else.
pub proof fn lemma_move_targets_adjacent_status(s: AppView, towards_done: bool)
    ensures
        match s.move_request(towards_done).write {
            Some(StoreWriteView::MoveStory { id, status }) => {
                &&& s.selected_story() matches Some(story)
                &&& id == story.id
                &&& 0 <= status.rank() < 4
                &&& status.rank() == story.status.rank() + (if towards_done {
                    1int
                } else {
                    -1int
                })
            },
            Some(_) => false,
            None => s.move_request(towards_done) == no_request(),
        },
{
}

/// Asking to delete and then answering no leaves the cached stories, the
/// selection and everything else but the cleared message as they were, and
/// asks nothing of the store.
pub proof fn lemma_declined_delete_changes_nothing(s: AppView)
    requires
        s.mode == Mode::Board,
    ensures
        s.request(Action::DeleteStory) == no_request(),
        s.step(Action::DeleteStory, no_reply()).request(Action::ConfirmNo) == no_request(),
        s.step(Action::DeleteStory, no_reply()).step(Action::ConfirmNo, no_reply()) == s.cleared(),
{
}

/// The open story follows the mode: if a story is open exactly in the
/// detail view and the story edits before a step, the same holds after it,
/// whatever the action and whatever the store answers.
pub proof fn lemma_step_keeps_story_link(s: AppView, action: Action, reply: StoreReplyView)
    requires
        s.story_linked(),
        reply.fits(s.request(action)),
    ensures
        s.step(action, reply).story_linked(),
{
}

/// The input buffer is empty whenever a step has just left a text input.
pub proof fn lemma_step_clears_input_on_exit(s: AppView, action: Action, reply: StoreReplyView)
    requires
        s.mode is Input,
    ensures
        !(s.step(action, reply).mode is Input) ==> s.step(action, reply).input_buffer.len() == 0,
{
}

/// Every key that means something in a mode stands for an edge out of that
/// mode, but for the task keys of the detail view, which do nothing.
pub proof fn lemma_keys_stand_for_edges(s: AppView, key: KeyEvent, action: Action)
    requires
        key_action(s.mode, key) == Some(action),
    ensures
        s.accepts(action) || action == Action::ToggleTask || action == Action::NewTask || action
            == Action::DeleteTask,
{
}

/// The state after the characters of `text` are typed one by one.
pub open spec fn typed(s: AppView, text: Seq<char>) -> AppView
    decreases text.len(),
{
    if text.len() == 0 {
        s
    } else {
        typed(s, text.drop_last()).step(Action::InputChar(text.last()), no_reply())
    }
}

/// Typing in an input appends to the buffer and changes nothing else but
/// the message, which the first character clears.
pub proof fn lemma_typing_appends(s: AppView, text: Seq<char>)
    requires
        s.mode is Input,
    ensures
        typed(s, text) == (AppView {
            input_buffer: s.input_buffer + text,
            status_message: if text.len() == 0 {
                s.status_message
            } else {
                None
            },
            ..s
        }),
    decreases text.len(),
{
    if text.len() == 0 {
        assert(s.input_buffer + text =~= s.input_buffer);
    } else {
        lemma_typing_appends(s, text.drop_last());
        assert(s.input_buffer + text =~= (s.input_buffer + text.drop_last()).push(text.last()));
    }
}

/// Opening the input for a new story, typing a title and confirming asks
/// the store for exactly one story with that title, in the status of the
/// selected column and in the epic of the filter, and then for the board.
pub proof fn lemma_typed_title_creates_that_story(s: AppView, title: Seq<char>)
    requires
        s.mode == Mode::Board,
        title.len() > 0,
    ensures
        typed(s.step(Action::NewStory, no_reply()), title).request(Action::InputConfirm) == (
        StoreRequestView {
            write: Some(
                StoreWriteView::CreateStory {
                    title,
                    status: status_at(s.selected_column),
                    epic_id: s.epic_filter,
                },
            ),
            read: Some(StoreRead::Board { epic_filter: s.epic_filter }),
        }),
{
    let opened = s.step(Action::NewStory, no_reply());
    lemma_typing_appends(opened, title);
    assert(opened.input_buffer + title =~= title);
}

/// Once the store has taken the new story, the state is back on the board
/// with an empty buffer, refreshed from the board that the store returned.
pub proof fn lemma_created_story_returns_to_board(s: AppView, reply: StoreReplyView)
    requires
        s.mode == Mode::Input(InputTarget::NewStory),
        s.input_buffer.len() > 0,
        reply.write_error.is_none(),
        reply.board.is_some(),
    ensures
        s.step(Action::InputConfirm, reply) == s.cleared().input_left().refresh(
            reply.board.unwrap(),
        ),
        s.step(Action::InputConfirm, reply).mode == Mode::Board,
        s.step(Action::InputConfirm, reply).input_buffer.len() == 0,
{
}

/// Asking to delete on the board and answering yes asks the store to delete
/// exactly the story under the cursor, and then for the board.
pub proof fn lemma_confirmed_delete_names_the_selected_story(s: AppView)
    requires
        s.mode == Mode::Board,
        s.selected_story().is_some(),
    ensures
        s.step(Action::DeleteStory, no_reply()).request(Action::ConfirmYes) == (StoreRequestView {
            write: Some(StoreWriteView::DeleteStory { id: s.selected_story().unwrap().id }),
            read: Some(StoreRead::Board { epic_filter: s.epic_filter }),
        }),
{
}

} // verus!
