//! The interactive state: mode, selection, cached lists and input buffer.

use vstd::prelude::*;
use crate::models::{epics_view, stories_view, Epic, EpicView, Story, StoryView};

verus! {

/// The current interactive view.
#[derive(Debug, Clone, Copy, PartialEq, Eq, Structural)]
pub enum Mode {
    Board,
    Detail,
    EpicList,
    Input(InputTarget),
    Confirm(ConfirmAction),
}

/// What the text being typed is for.
#[derive(Debug, Clone, Copy, PartialEq, Eq, Structural)]
pub enum InputTarget {
    NewStory,
    EditStoryTitle,
    EditStoryBody,
}

/// What a pending yes/no question is about.
#[derive(Debug, Clone, Copy, PartialEq, Eq, Structural)]
pub enum ConfirmAction {
    DeleteStory,
}

impl Mode {
    /// Whether the mode is one of the two story edits, which are entered from
    /// and return to the detail view.
    pub open spec fn is_story_edit(self) -> bool {
        self == Mode::Input(InputTarget::EditStoryTitle) || self == Mode::Input(
            InputTarget::EditStoryBody,
        )
    }

    /// The mode that leaving a text input returns to.
    pub open spec fn after_input(self) -> Mode {
        if self.is_story_edit() {
            Mode::Detail
        } else {
            Mode::Board
        }
    }
}

/// The authoritative in-memory snapshot of the interactive session.
pub struct App {
    pub mode: Mode,
    pub selected_column: usize,
    pub selected_card: [usize; 4],
    pub list_selection: usize,
    pub scroll_offset: u16,
    pub epic_filter: Option<i64>,
    pub columns: [Vec<Story>; 4],
    pub epics: Vec<Epic>,
    pub current_story: Option<Story>,
    pub input_buffer: String,
    pub status_message: Option<String>,
    pub should_quit: bool,
}

/// The mathematical content of an [`App`].
///
/// Indices are plain integers; those of a real `App` are never negative.
#[verifier::ext_equal]
pub struct AppView {
    pub mode: Mode,
    pub selected_column: int,
    pub selected_card: Seq<int>,
    pub list_selection: int,
    pub scroll_offset: int,
    pub epic_filter: Option<i64>,
    pub columns: Seq<Seq<StoryView>>,
    pub epics: Seq<EpicView>,
    pub current_story: Option<StoryView>,
    pub input_buffer: Seq<char>,
    pub status_message: Option<Seq<char>>,
    pub should_quit: bool,
}

/// The largest valid index into a list of `len` items that does not exceed
/// `index`, or 0 for an empty list.
pub open spec fn clamp_index(index: int, len: int) -> int {
    if len <= 0 {
        0
    } else if index >= len {
        len - 1
    } else {
        index
    }
}

impl AppView {
    /// What holds of the view of every `App`: four columns, four card
    /// indices, no negative index, and a scroll offset that fits 16 bits.
    pub open spec fn shaped(self) -> bool {
        &&& 0 <= self.selected_column
        &&& self.selected_card.len() == 4
        &&& forall|i: int| 0 <= i < 4 ==> 0 <= #[trigger] self.selected_card[i]
        &&& 0 <= self.list_selection
        &&& 0 <= self.scroll_offset <= u16::MAX
        &&& self.columns.len() == 4
    }

    /// Every card index is 0 for an empty column and a valid index otherwise.
    pub open spec fn cards_in_range(self) -> bool {
        forall|i: int|
            0 <= i < 4 ==> 0 <= #[trigger] self.selected_card[i] && self.selected_card[i] < (
            if self.columns[i].len() == 0 {
                1
            } else {
                self.columns[i].len() as int
            })
    }

    /// The selection invariant: the selected column is one of the four and
    /// every card index is in range.
    pub open spec fn wf(self) -> bool {
        &&& self.shaped()
        &&& self.selected_column < 4
        &&& self.cards_in_range()
    }

    /// The story under the cursor, if the selected column has one there.
    pub open spec fn selected_story(self) -> Option<StoryView> {
        let col = self.selected_column;
        let card = self.selected_card[col];
        if 0 <= col < 4 && 0 <= card < self.columns[col].len() {
            Some(self.columns[col][card])
        } else {
            None
        }
    }

    /// The view with every card index clamped into its column.
    pub open spec fn clamped(self) -> AppView {
        AppView {
            selected_card: Seq::new(
                4,
                |i: int| clamp_index(self.selected_card[i], self.columns[i].len() as int),
            ),
            ..self
        }
    }

    /// The cursor moved one column to the right, stopping at the last.
    pub open spec fn column_right(self) -> AppView {
        if self.selected_column < 3 {
            AppView { selected_column: self.selected_column + 1, ..self }
        } else {
            self
        }
    }

    /// The cursor moved one column to the left, stopping at the first.
    pub open spec fn column_left(self) -> AppView {
        if self.selected_column > 0 {
            AppView { selected_column: self.selected_column - 1, ..self }
        } else {
            self
        }
    }

    /// The cursor moved one card down in the selected column, stopping at the
    /// last card.
    pub open spec fn card_down(self) -> AppView {
        let col = self.selected_column;
        if self.selected_card[col] + 1 < self.columns[col].len() {
            AppView {
                selected_card: self.selected_card.update(col, self.selected_card[col] + 1),
                ..self
            }
        } else {
            self
        }
    }

    /// The cursor moved one card up in the selected column, stopping at the
    /// first card.
    pub open spec fn card_up(self) -> AppView {
        let col = self.selected_column;
        if self.selected_card[col] > 0 {
            AppView {
                selected_card: self.selected_card.update(col, self.selected_card[col] - 1),
                ..self
            }
        } else {
            self
        }
    }
}

/// The state a session starts in: board mode, nothing cached, nothing
/// selected.
pub open spec fn initial_view() -> AppView {
    AppView {
        mode: Mode::Board,
        selected_column: 0,
        selected_card: seq![0int, 0int, 0int, 0int],
        list_selection: 0,
        scroll_offset: 0,
        epic_filter: None,
        columns: Seq::new(4, |i: int| Seq::<StoryView>::empty()),
        epics: Seq::empty(),
        current_story: None,
        input_buffer: Seq::empty(),
        status_message: None,
        should_quit: false,
    }
}

impl View for App {
    type V = AppView;

    open spec fn view(&self) -> AppView {
        AppView {
            mode: self.mode,
            selected_column: self.selected_column as int,
            selected_card: Seq::new(4, |i: int| self.selected_card[i] as int),
            list_selection: self.list_selection as int,
            scroll_offset: self.scroll_offset as int,
            epic_filter: self.epic_filter,
            columns: Seq::new(4, |i: int| stories_view(self.columns[i]@)),
            epics: epics_view(self.epics@),
            current_story: match self.current_story {
                Some(story) => Some(story@),
                None => None,
            },
            input_buffer: self.input_buffer@,
            status_message: match self.status_message {
                Some(text) => Some(text@),
                None => None,
            },
            should_quit: self.should_quit,
        }
    }
}

/// The view of every state has the shape that the laws of the state
/// machine ask for.
pub proof fn lemma_view_is_shaped(app: App)
    ensures
        app@.shaped(),
{
}

impl App {
    /// The selection invariant on the state itself.
    pub open spec fn wf(&self) -> bool {
        self@.wf()
    }

    /// The state at the start of a session.
    pub fn new() -> (app: App)
        ensures
            app@ == initial_view(),
            app.wf(),
    {
        let app = App {
            mode: Mode::Board,
            selected_column: 0,
            selected_card: [0;4],
            list_selection: 0,
            scroll_offset: 0,
            epic_filter: None,
            columns: [vec![], vec![], vec![], vec![]],
            epics: vec![],
            current_story: None,
            input_buffer: String::new(),
            status_message: None,
            should_quit: false,
        };
        proof {
            assert(app@.selected_card =~= initial_view().selected_card);
            assert forall|i: int| 0 <= i < 4 implies #[trigger] app@.columns[i]
                =~= Seq::<StoryView>::empty() by {}
            assert(app@.columns =~= initial_view().columns);
            assert(app@.epics =~= initial_view().epics);
        }
        app
    }

    /// Moves the cursor one column to the right, stopping at the last.
    pub fn move_column_right(&mut self)
        ensures
            final(self)@ == old(self)@.column_right(),
    {
        if self.selected_column < 3 {
            self.selected_column += 1;
        }
    }

    /// Moves the cursor one column to the left, stopping at the first.
    pub fn move_column_left(&mut self)
        ensures
            final(self)@ == old(self)@.column_left(),
    {
        if self.selected_column > 0 {
            self.selected_column -= 1;
        }
    }

    /// Moves the cursor one card down in the selected column, stopping at
    /// the last card.
    pub fn move_card_down(&mut self)
        requires
            old(self).selected_column < 4,
        ensures
            final(self)@ == old(self)@.card_down(),
    {
        let col = self.selected_column;
        let len = self.columns[col].len();
        if len > 0 && self.selected_card[col] < len - 1 {
            self.selected_card[col] += 1;
        }
    }

    /// Moves the cursor one card up in the selected column, stopping at the
    /// first card.
    pub fn move_card_up(&mut self)
        requires
            old(self).selected_column < 4,
        ensures
            final(self)@ == old(self)@.card_up(),
    {
        let col = self.selected_column;
        if self.selected_card[col] > 0 {
            self.selected_card[col] -= 1;
        }
    }

    /// The story under the cursor, if the selected column has one there.
    pub fn selected_story(&self) -> (r: Option<&Story>)
        requires
            self.selected_column < 4,
        ensures
            match r {
                Some(story) => self@.selected_story() == Some(story@),
                None => self@.selected_story().is_none(),
            },
    {
        let col = self.selected_column;
        let card = self.selected_card[col];
        if card < self.columns[col].len() {
            Some(&self.columns[col][card])
        } else {
            None
        }
    }

    /// Clamps every card index into its column: 0 for an empty column, the
    /// last card where the index ran past the end.
    pub fn clamp_selections(&mut self)
        ensures
            final(self)@ == old(self)@.clamped(),
            final(self)@.cards_in_range(),
    {
        let mut i: usize = 0;
        while i < 4
            invariant
                0 <= i <= 4,
                self.mode == old(self).mode,
                self.selected_column == old(self).selected_column,
                self.list_selection == old(self).list_selection,
                self.scroll_offset == old(self).scroll_offset,
                self.epic_filter == old(self).epic_filter,
                self.columns == old(self).columns,
                self.epics == old(self).epics,
                self.current_story == old(self).current_story,
                self.input_buffer == old(self).input_buffer,
                self.status_message == old(self).status_message,
                self.should_quit == old(self).should_quit,
                forall|j: int|
                    0 <= j < i ==> self.selected_card[j] == clamp_index(
                        old(self).selected_card[j] as int,
                        old(self).columns[j]@.len() as int,
                    ),
                forall|j: int| i <= j < 4 ==> self.selected_card[j] == old(self).selected_card[j],
            decreases 4 - i,
        {
            let len = self.columns[i].len();
            if len == 0 {
                self.selected_card[i] = 0;
            } else if self.selected_card[i] >= len {
                self.selected_card[i] = len - 1;
            }
            i += 1;
        }
    }
}

} // verus!
