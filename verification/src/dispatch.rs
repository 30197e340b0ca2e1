//! The dispatcher: the reducer that turns an action into the next state.
//!
//! A dispatch has three steps. [`App::plan`] decides, from the state alone,
//! what the action needs from the store. [`perform`] asks the store.
//! [`App::apply`] computes the next state from the action and the store's
//! answer. Planning and applying are pure; their contracts are exact.
//! [`handle_action`] runs the three in a row.

use vstd::prelude::*;
use vstd::string::StringExecFns;
use crate::actions::Action;
use crate::app::{App, AppView, ConfirmAction, InputTarget, Mode};
use crate::db::{Database, StoreError};
use crate::epics::{epic_row, filter_row};
use crate::input::{key_action, map_key, KeyEvent};
use crate::laws::{
    lemma_step_keeps_selection_invariant, lemma_step_keeps_shape, lemma_step_keeps_story_link,
};
use crate::models::{status_at, Status};
use crate::refresh::{BoardLoad, BoardLoadView};
use crate::request::{
    no_request, perform, StoreRead, StoreReply, StoreReplyView, StoreRequest, StoreRequestView,
    StoreWrite, StoreWriteView,
};

verus! {

/// The message for a change that the store refused.
pub open spec fn failure_message(text: Seq<char>) -> Seq<char> {
    "Error: "@ + text
}

impl AppView {
    /// The state with the transient message cleared.
    pub open spec fn cleared(self) -> AppView {
        AppView { status_message: None, ..self }
    }

    /// The state with the failure of a change, if there was one, as message.
    pub open spec fn noted(self, write_error: Option<Seq<char>>) -> AppView {
        match write_error {
            Some(text) => AppView { status_message: Some(failure_message(text)), ..self },
            None => self,
        }
    }

    /// The state refreshed from the board of a reply, if it holds one.
    pub open spec fn refreshed(self, board: Option<BoardLoadView>) -> AppView {
        match board {
            Some(board) => self.refresh(board),
            None => self,
        }
    }

    /// The filter that the selected row of the epic list stands for: none
    /// for row 0, else the id of the epic in that row.
    pub open spec fn chosen_filter(self) -> Option<i64> {
        if 1 <= self.list_selection <= self.epics.len() {
            Some(self.epics[self.list_selection - 1].id)
        } else {
            None
        }
    }

    /// The request to move the selected story to `target`, if there is a
    /// selected story and a target.
    pub open spec fn move_request(self, towards_done: bool) -> StoreRequestView {
        match self.selected_story() {
            Some(story) => {
                let target = if towards_done {
                    story.status.successor()
                } else {
                    story.status.predecessor()
                };
                match target {
                    Some(status) => StoreRequestView {
                        write: Some(StoreWriteView::MoveStory { id: story.id, status }),
                        read: Some(StoreRead::Board { epic_filter: self.epic_filter }),
                    },
                    None => no_request(),
                }
            },
            None => no_request(),
        }
    }

    /// The request of a confirmed input or epic choice.
    pub open spec fn confirm_request(self) -> StoreRequestView {
        if self.mode == Mode::EpicList {
            StoreRequestView {
                write: None,
                read: Some(StoreRead::Board { epic_filter: self.chosen_filter() }),
            }
        } else if self.input_buffer.len() == 0 {
            no_request()
        } else {
            match self.mode {
                Mode::Input(InputTarget::NewStory) => StoreRequestView {
                    write: Some(
                        StoreWriteView::CreateStory {
                            title: self.input_buffer,
                            status: status_at(self.selected_column),
                            epic_id: self.epic_filter,
                        },
                    ),
                    read: Some(StoreRead::Board { epic_filter: self.epic_filter }),
                },
                Mode::Input(InputTarget::EditStoryTitle) => match self.current_story {
                    Some(story) => StoreRequestView {
                        write: Some(
                            StoreWriteView::RenameStory { id: story.id, title: self.input_buffer },
                        ),
                        read: Some(StoreRead::Story { id: story.id }),
                    },
                    None => no_request(),
                },
                Mode::Input(InputTarget::EditStoryBody) => match self.current_story {
                    Some(story) => StoreRequestView {
                        write: Some(
                            StoreWriteView::DescribeStory {
                                id: story.id,
                                description: self.input_buffer,
                            },
                        ),
                        read: Some(StoreRead::Story { id: story.id }),
                    },
                    None => no_request(),
                },
                _ => no_request(),
            }
        }
    }

    /// Whether the action is an edge out of the current mode. Leaving is
    /// possible everywhere; moving within a view where there is something
    /// to move in; board actions on the board; closing in the detail view
    /// and the epic list; story edits in the detail view; input actions in
    /// an input, and confirming also in the epic list; answers at a
    /// question. Task actions are edges nowhere.
    pub open spec fn accepts(self, action: Action) -> bool {
        match action {
            Action::Quit => true,
            Action::MoveUp | Action::MoveDown => self.mode == Mode::Board || self.mode
                == Mode::Detail || self.mode == Mode::EpicList,
            Action::MoveLeft
            | Action::MoveRight
            | Action::MoveStoryLeft
            | Action::MoveStoryRight
            | Action::OpenDetail
            | Action::NewStory
            | Action::DeleteStory
            | Action::OpenEpicList => self.mode == Mode::Board,
            Action::CloseDetail => self.mode == Mode::Detail || self.mode == Mode::EpicList,
            Action::EditStoryTitle | Action::EditStoryBody => self.mode == Mode::Detail,
            Action::InputChar(_) | Action::InputBackspace | Action::InputCancel => self.mode
                is Input,
            Action::InputConfirm => self.mode is Input || self.mode == Mode::EpicList,
            Action::ConfirmYes | Action::ConfirmNo => self.mode is Confirm,
            Action::ToggleTask | Action::NewTask | Action::DeleteTask => false,
        }
    }

    /// What dispatching `action` in this state needs from the store: what
    /// its edge needs, and nothing where the action is no edge out of the
    /// current mode.
    pub open spec fn request(self, action: Action) -> StoreRequestView {
        if self.accepts(action) {
            self.edge_request(action)
        } else {
            no_request()
        }
    }

    /// What the edge of `action` needs from the store.
    ///
    /// Navigation, opening and leaving inputs, and typing need nothing. A
    /// story move, a confirmed new story and a confirmed delete ask for one
    /// change and the board; closing a view and choosing an epic ask for the
    /// board; a confirmed edit asks for one change and the story; opening the
    /// epic list asks for the epics.
    pub open spec fn edge_request(self, action: Action) -> StoreRequestView {
        match action {
            Action::MoveStoryLeft => self.move_request(false),
            Action::MoveStoryRight => self.move_request(true),
            Action::CloseDetail => StoreRequestView {
                write: None,
                read: Some(StoreRead::Board { epic_filter: self.epic_filter }),
            },
            Action::OpenEpicList => StoreRequestView { write: None, read: Some(StoreRead::Epics) },
            Action::InputConfirm => self.confirm_request(),
            Action::ConfirmYes => if self.mode == Mode::Confirm(ConfirmAction::DeleteStory) {
                StoreRequestView {
                    write: match self.selected_story() {
                        Some(story) => Some(StoreWriteView::DeleteStory { id: story.id }),
                        None => None,
                    },
                    read: Some(StoreRead::Board { epic_filter: self.epic_filter }),
                }
            } else {
                no_request()
            },
            _ => no_request(),
        }
    }

    /// The state after moving up: one card up on the board, one line up in
    /// the detail view, one row up in the epic list.
    pub open spec fn moved_up(self) -> AppView {
        match self.mode {
            Mode::Board => self.card_up(),
            Mode::Detail => AppView {
                scroll_offset: if self.scroll_offset > 0 {
                    self.scroll_offset - 1
                } else {
                    0
                },
                ..self
            },
            Mode::EpicList => AppView {
                list_selection: if self.list_selection > 0 {
                    self.list_selection - 1
                } else {
                    0
                },
                ..self
            },
            _ => self,
        }
    }

    /// The state after moving down: one card down on the board, one line
    /// down in the detail view, one row down in the epic list, whose last row
    /// is the last epic.
    pub open spec fn moved_down(self) -> AppView {
        match self.mode {
            Mode::Board => self.card_down(),
            Mode::Detail => AppView {
                scroll_offset: if self.scroll_offset < u16::MAX {
                    self.scroll_offset + 1
                } else {
                    self.scroll_offset
                },
                ..self
            },
            Mode::EpicList => AppView {
                list_selection: if self.list_selection < self.epics.len() {
                    self.list_selection + 1
                } else {
                    self.list_selection
                },
                ..self
            },
            _ => self,
        }
    }

    /// The state after leaving a text input for the view it was opened from.
    pub open spec fn input_left(self) -> AppView {
        AppView { mode: self.mode.after_input(), input_buffer: Seq::empty(), ..self }
    }

    /// The state after a confirmed input or epic choice.
    ///
    /// A chosen epic becomes the filter and the board is refreshed. An empty
    /// input is dropped. A new story that the store took leads back to the
    /// board; an edit that the store took leads back to the detail view, with
    /// the story as read back. A change that the store refused leaves mode
    /// and buffer as they were and becomes the message.
    pub open spec fn confirmed(self, reply: StoreReplyView) -> AppView {
        if self.mode == Mode::EpicList {
            AppView { epic_filter: self.chosen_filter(), mode: Mode::Board, ..self }.refreshed(
                reply.board,
            )
        } else if self.input_buffer.len() == 0 {
            self.input_left()
        } else {
            match self.mode {
                Mode::Input(InputTarget::NewStory) => (if reply.write_error.is_none() {
                    self.input_left()
                } else {
                    self.noted(reply.write_error)
                }).refreshed(reply.board),
                Mode::Input(InputTarget::EditStoryTitle)
                | Mode::Input(InputTarget::EditStoryBody) => match self.current_story {
                    Some(story) => {
                        let shown = AppView {
                            current_story: match reply.story {
                                Some(fresh) => Some(fresh),
                                None => Some(story),
                            },
                            ..self
                        };
                        if reply.write_error.is_none() {
                            shown.input_left()
                        } else {
                            shown.noted(reply.write_error)
                        }
                    },
                    None => self.input_left(),
                },
                _ => self.input_left(),
            }
        }
    }

    /// The state after dispatching `action` with the store's answer `reply`.
    ///
    /// The message is cleared first, whatever the action. An action that is
    /// no edge out of the current mode does nothing more.
    pub open spec fn step(self, action: Action, reply: StoreReplyView) -> AppView {
        if self.accepts(action) {
            self.edge(action, reply)
        } else {
            self.cleared()
        }
    }

    /// The state after taking the edge of `action` with the store's answer
    /// `reply`.
    pub open spec fn edge(self, action: Action, reply: StoreReplyView) -> AppView {
        let s = self.cleared();
        match action {
            Action::Quit => AppView { should_quit: true, ..s },
            Action::MoveLeft => if s.mode == Mode::Board {
                s.column_left()
            } else {
                s
            },
            Action::MoveRight => if s.mode == Mode::Board {
                s.column_right()
            } else {
                s
            },
            Action::MoveUp => s.moved_up(),
            Action::MoveDown => s.moved_down(),
            Action::MoveStoryLeft | Action::MoveStoryRight => s.noted(reply.write_error).refreshed(
                reply.board,
            ),
            Action::OpenDetail => match s.selected_story() {
                Some(story) => AppView {
                    current_story: Some(story),
                    scroll_offset: 0,
                    mode: Mode::Detail,
                    ..s
                },
                None => s,
            },
            Action::CloseDetail => AppView {
                mode: Mode::Board,
                current_story: None,
                ..s
            }.refreshed(reply.board),
            Action::OpenEpicList => match reply.epics {
                Some(Ok(epics)) => AppView {
                    epics,
                    list_selection: filter_row(s.epic_filter, epics),
                    mode: Mode::EpicList,
                    ..s
                },
                Some(Err(text)) => AppView { status_message: Some(failure_message(text)), ..s },
                None => s,
            },
            Action::NewStory => AppView {
                input_buffer: Seq::empty(),
                mode: Mode::Input(InputTarget::NewStory),
                ..s
            },
            Action::EditStoryTitle => match s.current_story {
                Some(story) => AppView {
                    input_buffer: story.title,
                    mode: Mode::Input(InputTarget::EditStoryTitle),
                    ..s
                },
                None => s,
            },
            Action::EditStoryBody => match s.current_story {
                Some(story) => AppView {
                    input_buffer: story.description,
                    mode: Mode::Input(InputTarget::EditStoryBody),
                    ..s
                },
                None => s,
            },
            Action::InputChar(c) => AppView { input_buffer: s.input_buffer.push(c), ..s },
            Action::InputBackspace => AppView {
                input_buffer: if s.input_buffer.len() > 0 {
                    s.input_buffer.drop_last()
                } else {
                    s.input_buffer
                },
                ..s
            },
            Action::InputConfirm => s.confirmed(reply),
            Action::InputCancel => s.input_left(),
            Action::DeleteStory => if s.selected_story().is_some() {
                AppView { mode: Mode::Confirm(ConfirmAction::DeleteStory), ..s }
            } else {
                s
            },
            Action::ConfirmYes => if s.mode == Mode::Confirm(ConfirmAction::DeleteStory) {
                (if reply.write_error.is_none() {
                    AppView { mode: Mode::Board, ..s }
                } else {
                    s.noted(reply.write_error)
                }).refreshed(reply.board)
            } else {
                s
            },
            Action::ConfirmNo => AppView { mode: Mode::Board, ..s },
            Action::ToggleTask | Action::NewTask | Action::DeleteTask => s,
        }
    }
}

/// The message for a change that the store refused.
fn failure_text(error: &StoreError) -> (r: String)
    ensures
        r@ == failure_message(error.text()),
{
    let mut message = String::from_str("Error: ");
    message.append(error.to_string().as_str());
    message
}

impl App {
    /// The filter that the selected row of the epic list stands for.
    pub fn chosen_filter(&self) -> (r: Option<i64>)
        ensures
            r == self@.chosen_filter(),
    {
        if self.list_selection >= 1 && self.list_selection <= self.epics.len() {
            Some(self.epics[self.list_selection - 1].id)
        } else {
            None
        }
    }

    /// The request to move the selected story one status along the chain; a
    /// move past either end, or without a selected story, asks for nothing.
    fn plan_move(&self, towards_done: bool) -> (request: StoreRequest)
        requires
            self.selected_column < 4,
        ensures
            request@ == self@.move_request(towards_done),
    {
        match self.selected_story() {
            Some(story) => {
                let target = if towards_done {
                    story.status.next()
                } else {
                    story.status.prev()
                };
                match target {
                    Some(status) => StoreRequest {
                        write: Some(StoreWrite::MoveStory { id: story.id, status }),
                        read: Some(StoreRead::Board { epic_filter: self.epic_filter }),
                    },
                    None => StoreRequest::nothing(),
                }
            },
            None => StoreRequest::nothing(),
        }
    }

    /// The request of a confirmed input or epic choice.
    fn plan_confirm(&self) -> (request: StoreRequest)
        requires
            self.selected_column < 4,
        ensures
            request@ == self@.confirm_request(),
    {
        let reload = Some(StoreRead::Board { epic_filter: self.epic_filter });
        match self.mode {
            Mode::EpicList => StoreRequest {
                write: None,
                read: Some(StoreRead::Board { epic_filter: self.chosen_filter() }),
            },
            _ if self.input_buffer.as_str().is_empty() => StoreRequest::nothing(),
            Mode::Input(InputTarget::NewStory) => StoreRequest {
                write: Some(
                    StoreWrite::CreateStory {
                        title: self.input_buffer.clone(),
                        status: Status::all()[self.selected_column],
                        epic_id: self.epic_filter,
                    },
                ),
                read: reload,
            },
            Mode::Input(InputTarget::EditStoryTitle) => match &self.current_story {
                Some(story) => StoreRequest {
                    write: Some(
                        StoreWrite::RenameStory { id: story.id, title: self.input_buffer.clone() },
                    ),
                    read: Some(StoreRead::Story { id: story.id }),
                },
                None => StoreRequest::nothing(),
            },
            Mode::Input(InputTarget::EditStoryBody) => match &self.current_story {
                Some(story) => StoreRequest {
                    write: Some(
                        StoreWrite::DescribeStory {
                            id: story.id,
                            description: self.input_buffer.clone(),
                        },
                    ),
                    read: Some(StoreRead::Story { id: story.id }),
                },
                None => StoreRequest::nothing(),
            },
            _ => StoreRequest::nothing(),
        }
    }

    /// Whether the action is an edge out of the current mode.
    pub fn accepts(&self, action: Action) -> (r: bool)
        ensures
            r == self@.accepts(action),
    {
        match action {
            Action::Quit => true,
            Action::MoveUp | Action::MoveDown => match self.mode {
                Mode::Board | Mode::Detail | Mode::EpicList => true,
                _ => false,
            },
            Action::MoveLeft
            | Action::MoveRight
            | Action::MoveStoryLeft
            | Action::MoveStoryRight
            | Action::OpenDetail
            | Action::NewStory
            | Action::DeleteStory
            | Action::OpenEpicList => self.mode == Mode::Board,
            Action::CloseDetail => self.mode == Mode::Detail || self.mode == Mode::EpicList,
            Action::EditStoryTitle | Action::EditStoryBody => self.mode == Mode::Detail,
            Action::InputChar(_) | Action::InputBackspace | Action::InputCancel => match self.mode {
                Mode::Input(_) => true,
                _ => false,
            },
            Action::InputConfirm => match self.mode {
                Mode::Input(_) | Mode::EpicList => true,
                _ => false,
            },
            Action::ConfirmYes | Action::ConfirmNo => match self.mode {
                Mode::Confirm(_) => true,
                _ => false,
            },
            Action::ToggleTask | Action::NewTask | Action::DeleteTask => false,
        }
    }

    /// Decides what dispatching `action` in this state needs from the store.
    pub fn plan(&self, action: Action) -> (request: StoreRequest)
        requires
            self.selected_column < 4,
        ensures
            request@ == self@.request(action),
    {
        if !self.accepts(action) {
            return StoreRequest::nothing();
        }
        let reload = Some(StoreRead::Board { epic_filter: self.epic_filter });
        match action {
            Action::MoveStoryLeft => self.plan_move(false),
            Action::MoveStoryRight => self.plan_move(true),
            Action::CloseDetail => StoreRequest { write: None, read: reload },
            Action::OpenEpicList => StoreRequest { write: None, read: Some(StoreRead::Epics) },
            Action::InputConfirm => self.plan_confirm(),
            Action::ConfirmYes => match self.mode {
                Mode::Confirm(ConfirmAction::DeleteStory) => StoreRequest {
                    write: match self.selected_story() {
                        Some(story) => Some(StoreWrite::DeleteStory { id: story.id }),
                        None => None,
                    },
                    read: reload,
                },
                _ => StoreRequest::nothing(),
            },
            _ => StoreRequest::nothing(),
        }
    }

    /// Records the failure of a change, if there was one, as the message.
    fn note(&mut self, write: &Result<(), StoreError>)
        ensures
            final(self)@ == old(self)@.noted(
                match *write {
                    Ok(_) => None,
                    Err(e) => Some(e.text()),
                },
            ),
    {
        if let Err(e) = write {
            self.status_message = Some(failure_text(e));
        }
    }

    /// Refreshes from the board of a reply, if it holds one.
    fn refresh_from(&mut self, board: Option<BoardLoad>)
        ensures
            final(self)@ == old(self)@.refreshed(
                match board {
                    Some(board) => Some(board@),
                    None => None,
                },
            ),
    {
        if let Some(board) = board {
            self.apply_refresh(board);
        }
    }

    /// Leaves a text input for the view it was opened from.
    fn leave_input(&mut self)
        ensures
            final(self)@ == old(self)@.input_left(),
    {
        self.input_buffer.clear();
        self.mode = match self.mode {
            Mode::Input(InputTarget::EditStoryTitle)
            | Mode::Input(InputTarget::EditStoryBody) => Mode::Detail,
            _ => Mode::Board,
        };
    }

    /// Moves up within the current view.
    fn move_up(&mut self)
        requires
            old(self).selected_column < 4,
        ensures
            final(self)@ == old(self)@.moved_up(),
    {
        match self.mode {
            Mode::Board => self.move_card_up(),
            Mode::Detail => {
                self.scroll_offset = self.scroll_offset.saturating_sub(1);
            },
            Mode::EpicList => {
                if self.list_selection > 0 {
                    self.list_selection -= 1;
                }
            },
            _ => {},
        }
    }

    /// Moves down within the current view.
    fn move_down(&mut self)
        requires
            old(self).selected_column < 4,
        ensures
            final(self)@ == old(self)@.moved_down(),
    {
        match self.mode {
            Mode::Board => self.move_card_down(),
            Mode::Detail => {
                self.scroll_offset = self.scroll_offset.saturating_add(1);
            },
            Mode::EpicList => {
                let max = self.epics.len();
                if self.list_selection < max {
                    self.list_selection += 1;
                }
            },
            _ => {},
        }
    }

    /// Finishes a confirmed input or epic choice with the store's answer.
    fn confirm(&mut self, reply: StoreReply)
        requires
            old(self).selected_column < 4,
        ensures
            final(self)@ == old(self)@.confirmed(reply@),
    {
        let StoreReply { write, board, story, epics: _ } = reply;
        match self.mode {
            Mode::EpicList => {
                self.epic_filter = self.chosen_filter();
                self.mode = Mode::Board;
                self.refresh_from(board);
            },
            _ if self.input_buffer.as_str().is_empty() => self.leave_input(),
            Mode::Input(InputTarget::NewStory) => {
                if write.is_ok() {
                    self.leave_input();
                } else {
                    self.note(&write);
                }
                self.refresh_from(board);
            },
            Mode::Input(InputTarget::EditStoryTitle) | Mode::Input(InputTarget::EditStoryBody) => {
                if self.current_story.is_some() {
                    if let Some(fresh) = story {
                        self.current_story = Some(fresh);
                    }
                    if write.is_ok() {
                        self.leave_input();
                    } else {
                        self.note(&write);
                    }
                } else {
                    self.leave_input();
                }
            },
            _ => self.leave_input(),
        }
    }

    /// Computes the next state from an action and the store's answer to the
    /// request that [`App::plan`] made for it.
    pub fn apply(&mut self, action: Action, reply: StoreReply)
        requires
            old(self).selected_column < 4,
        ensures
            final(self)@ == old(self)@.step(action, reply@),
    {
        let accepted = self.accepts(action);
        self.status_message = None;
        if !accepted {
            return ;
        }
        match action {
            Action::Quit => {
                self.should_quit = true;
            },
            Action::MoveLeft => {
                if self.mode == Mode::Board {
                    self.move_column_left();
                }
            },
            Action::MoveRight => {
                if self.mode == Mode::Board {
                    self.move_column_right();
                }
            },
            Action::MoveUp => self.move_up(),
            Action::MoveDown => self.move_down(),
            Action::MoveStoryLeft | Action::MoveStoryRight => {
                self.note(&reply.write);
                self.refresh_from(reply.board);
            },
            Action::OpenDetail => {
                let opened = match self.selected_story() {
                    Some(story) => Some(story.clone()),
                    None => None,
                };
                if opened.is_some() {
                    self.current_story = opened;
                    self.scroll_offset = 0;
                    self.mode = Mode::Detail;
                }
            },
            Action::CloseDetail => {
                self.mode = Mode::Board;
                self.current_story = None;
                self.refresh_from(reply.board);
            },
            Action::OpenEpicList => {
                match reply.epics {
                    Some(Ok(epics)) => {
                        self.list_selection = epic_row(&epics, self.epic_filter);
                        self.epics = epics;
                        self.mode = Mode::EpicList;
                    },
                    Some(Err(e)) => {
                        self.status_message = Some(failure_text(&e));
                    },
                    None => {},
                }
            },
            Action::NewStory => {
                self.input_buffer.clear();
                self.mode = Mode::Input(InputTarget::NewStory);
            },
            Action::EditStoryTitle => {
                if let Some(story) = &self.current_story {
                    self.input_buffer = story.title.clone();
                    self.mode = Mode::Input(InputTarget::EditStoryTitle);
                }
            },
            Action::EditStoryBody => {
                if let Some(story) = &self.current_story {
                    self.input_buffer = story.description.clone();
                    self.mode = Mode::Input(InputTarget::EditStoryBody);
                }
            },
            Action::InputChar(c) => self.input_buffer.push(c),
            Action::InputBackspace => {
                self.input_buffer.pop();
            },
            Action::InputConfirm => self.confirm(reply),
            Action::InputCancel => self.leave_input(),
            Action::DeleteStory => {
                if self.selected_story().is_some() {
                    self.mode = Mode::Confirm(ConfirmAction::DeleteStory);
                }
            },
            Action::ConfirmYes => {
                if self.mode == Mode::Confirm(ConfirmAction::DeleteStory) {
                    if reply.write.is_ok() {
                        self.mode = Mode::Board;
                    } else {
                        self.note(&reply.write);
                    }
                    self.refresh_from(reply.board);
                }
            },
            Action::ConfirmNo => {
                self.mode = Mode::Board;
            },
            Action::ToggleTask | Action::NewTask | Action::DeleteTask => {},
        }
    }
}

/// Dispatches one action: clears the message, asks the store for what the
/// action needs, and moves to the next state. An action that is no edge out
/// of the current mode only clears the message.
///
/// Whatever the store answers, the new state is the step of the old one
/// under some reply that fits the request of the action.
pub fn handle_action(db: &Database, app: &mut App, action: Action)
    requires
        old(app).selected_column < 4,
    ensures
        exists|reply: StoreReplyView|
            reply.fits(old(app)@.request(action)) && final(app)@ == #[trigger] old(app)@.step(
                action,
                reply,
            ),
        final(app).selected_column < 4,
        old(app).wf() ==> final(app).wf(),
        old(app)@.story_linked() ==> final(app)@.story_linked(),
{
    let request = app.plan(action);
    let reply = perform(db, &request);
    proof {
        lemma_step_keeps_shape(app@, action, reply@);
        if app.wf() {
            lemma_step_keeps_selection_invariant(app@, action, reply@);
        }
        if app@.story_linked() {
            lemma_step_keeps_story_link(app@, action, reply@);
        }
    }
    app.apply(action, reply);
}

/// Handles one key press: maps it to an action in the current mode and
/// dispatches that action. A key without a meaning in the mode is ignored.
pub fn handle_key(db: &Database, app: &mut App, key: KeyEvent)
    requires
        old(app).selected_column < 4,
    ensures
        match key_action(old(app).mode, key) {
            Some(action) => exists|reply: StoreReplyView|
                reply.fits(old(app)@.request(action)) && final(app)@ == #[trigger] old(
                    app,
                )@.step(action, reply),
            None => final(app)@ == old(app)@,
        },
        final(app).selected_column < 4,
        old(app).wf() ==> final(app).wf(),
        old(app)@.story_linked() ==> final(app)@.story_linked(),
{
    if let Some(action) = map_key(app.mode, key) {
        handle_action(db, app, action);
    }
}

impl AppView {
    /// A story is open exactly in the detail view and in the two story
    /// edits, which are entered from it.
    pub open spec fn story_linked(self) -> bool {
        self.current_story.is_some() <==> (self.mode == Mode::Detail || self.mode.is_story_edit())
    }
}

} // verus!

