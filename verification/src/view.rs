//! What the screen shows, as plain values: the decisions of rendering
//! without the drawing. A renderer turns these into widgets and never feeds
//! anything back into the state.

use vstd::prelude::*;
use vstd::string::StringExecFns;
use crate::app::{App, AppView, ConfirmAction, Mode};
use crate::epics::{epic_row, row_of_epic};
use crate::models::{epics_view, Priority};
use crate::text::strip_prefix;

verus! {

/// How a line of a story's description is displayed.
#[derive(Debug, Clone, Copy, PartialEq, Eq, Structural)]
pub enum LineKind {
    /// A line behind `# `.
    Heading,
    /// A line behind `## `.
    Subheading,
    /// A line behind `### `.
    Minor,
    /// A line behind `- `.
    Bullet,
    /// A line that starts a code fence; it is shown whole.
    Fence,
    Plain,
}

/// A line of a description with the way to display it; a marker in front of
/// the text is removed.
#[derive(Debug, Clone, Copy, PartialEq, Eq)]
pub struct StyledLine<'a> {
    pub kind: LineKind,
    pub text: &'a str,
}

/// The kind of a line: decided by the first marker, of `# `, `## `, `### `,
/// `- ` and a code fence in this order, that the line starts with.
pub open spec fn line_kind(line: Seq<char>) -> LineKind {
    if "# "@.is_prefix_of(line) {
        LineKind::Heading
    } else if "## "@.is_prefix_of(line) {
        LineKind::Subheading
    } else if "### "@.is_prefix_of(line) {
        LineKind::Minor
    } else if "- "@.is_prefix_of(line) {
        LineKind::Bullet
    } else if "```"@.is_prefix_of(line) {
        LineKind::Fence
    } else {
        LineKind::Plain
    }
}

/// The marker that is removed from the front of a line of this kind.
pub open spec fn line_marker(kind: LineKind) -> Seq<char> {
    match kind {
        LineKind::Heading => "# "@,
        LineKind::Subheading => "## "@,
        LineKind::Minor => "### "@,
        LineKind::Bullet => "- "@,
        LineKind::Fence => Seq::empty(),
        LineKind::Plain => Seq::empty(),
    }
}

/// Decides how one line of a description is displayed.
pub fn classify_line<'a>(line: &'a str) -> (styled: StyledLine<'a>)
    ensures
        styled.kind == line_kind(line@),
        line@ == line_marker(styled.kind) + styled.text@,
{
    if let Some(text) = strip_prefix(line, "# ") {
        StyledLine { kind: LineKind::Heading, text }
    } else if let Some(text) = strip_prefix(line, "## ") {
        StyledLine { kind: LineKind::Subheading, text }
    } else if let Some(text) = strip_prefix(line, "### ") {
        StyledLine { kind: LineKind::Minor, text }
    } else if let Some(text) = strip_prefix(line, "- ") {
        StyledLine { kind: LineKind::Bullet, text }
    } else if strip_prefix(line, "```").is_some() {
        StyledLine { kind: LineKind::Fence, text: line }
    } else {
        StyledLine { kind: LineKind::Plain, text: line }
    }
}

/// The letter that marks a priority on a card: the first of its name.
pub open spec fn marker_of(priority: Priority) -> char {
    match priority {
        Priority::Low => 'L',
        Priority::Medium => 'M',
        Priority::High => 'H',
        Priority::Critical => 'C',
    }
}

/// The letter that marks a priority on a card.
pub fn priority_marker(priority: Priority) -> (marker: char)
    ensures
        marker == marker_of(priority),
        marker == priority.label()[0],
{
    proof {
        reveal_strlit("Low");
        reveal_strlit("Medium");
        reveal_strlit("High");
        reveal_strlit("Critical");
    }
    match priority {
        Priority::Low => 'L',
        Priority::Medium => 'M',
        Priority::High => 'H',
        Priority::Critical => 'C',
    }
}

/// The question that a pending confirmation asks.
pub open spec fn prompt_of(mode: Mode) -> Seq<char> {
    if mode == Mode::Confirm(ConfirmAction::DeleteStory) {
        "Delete this story? (y/n)"@
    } else {
        "Confirm? (y/n)"@
    }
}

/// The question that a pending confirmation asks.
pub fn confirm_prompt(mode: Mode) -> (prompt: &'static str)
    ensures
        prompt@ == prompt_of(mode),
{
    match mode {
        Mode::Confirm(ConfirmAction::DeleteStory) => "Delete this story? (y/n)",
        _ => "Confirm? (y/n)",
    }
}

/// One row of the epic list.
#[derive(Debug)]
pub struct EpicRow {
    pub label: String,
    pub highlighted: bool,
}

impl AppView {
    /// The name in the header of the board: "All Epics" without a filter,
    /// the title of the epic that the filter names, or "Unknown" where no
    /// such epic is listed.
    pub open spec fn header_epic(self) -> Seq<char> {
        match self.epic_filter {
            None => "All Epics"@,
            Some(id) => if row_of_epic(id, self.epics) == 0 {
                "Unknown"@
            } else {
                self.epics[row_of_epic(id, self.epics) - 1].title
            },
        }
    }

    /// The key hints under the board; other views bring their own.
    pub open spec fn hints(self) -> Seq<char> {
        if self.mode == Mode::Board {
            "hjkl/↑↓←→: nav  a/s: move story  Enter: open  n: new  d: delete  e: epics  q: quit"@
        } else {
            Seq::empty()
        }
    }

    /// The footer: the message if there is one, else the key hints.
    pub open spec fn footer(self) -> Seq<char> {
        match self.status_message {
            Some(message) => message,
            None => self.hints(),
        }
    }

    /// The card to highlight in a column: the selected card of the selected
    /// column, unless that column is empty.
    pub open spec fn cursor(self, column: int) -> Option<int> {
        if column == self.selected_column && self.columns[column].len() > 0 {
            Some(self.selected_card[column])
        } else {
            None
        }
    }

    /// The label of a row of the epic list: "All Epics" for row 0, else the
    /// title of the epic in that row, each behind one space.
    pub open spec fn epic_row_label(self, row: int) -> Seq<char> {
        if row == 0 {
            " All Epics"@
        } else {
            " "@ + self.epics[row - 1].title
        }
    }

    /// Whether a row of the epic list is highlighted: the selected row, but
    /// row 0 only while no filter is set.
    pub open spec fn epic_row_highlighted(self, row: int) -> bool {
        if row == 0 {
            self.epic_filter.is_none() && self.list_selection == 0
        } else {
            self.list_selection == row
        }
    }
}

impl AppView {
    /// What the preview under the board shows in place of a description:
    /// a note where no story is selected, a placeholder where the selected
    /// story has no description, nothing where it has one.
    pub open spec fn preview_placeholder(self) -> Option<Seq<char>> {
        match self.selected_story() {
            None => Some("No story selected"@),
            Some(story) => if story.description.len() == 0 {
                Some("(no description)"@)
            } else {
                None
            },
        }
    }

    /// What the detail view shows in place of the body: a placeholder where
    /// the open story has no description, nothing otherwise.
    pub open spec fn detail_placeholder(self) -> Option<Seq<char>> {
        match self.current_story {
            Some(story) => if story.description.len() == 0 {
                Some("(no description — press 'b' to add)"@)
            } else {
                None
            },
            None => None,
        }
    }
}

/// The text that the preview under the board shows in place of a
/// description, if any.
pub fn preview_placeholder(app: &App) -> (text: Option<&'static str>)
    requires
        app.selected_column < 4,
    ensures
        match text {
            Some(text) => app@.preview_placeholder() == Some(text@),
            None => app@.preview_placeholder().is_none(),
        },
{
    match app.selected_story() {
        None => Some("No story selected"),
        Some(story) => if story.description.as_str().is_empty() {
            Some("(no description)")
        } else {
            None
        },
    }
}

/// The text that the detail view shows in place of the body, if any.
pub fn detail_placeholder(app: &App) -> (text: Option<&'static str>)
    ensures
        match text {
            Some(text) => app@.detail_placeholder() == Some(text@),
            None => app@.detail_placeholder().is_none(),
        },
{
    match &app.current_story {
        Some(story) => if story.description.as_str().is_empty() {
            Some("(no description — press 'b' to add)")
        } else {
            None
        },
        None => None,
    }
}

/// The name of the epic filter for the header of the board.
pub fn epic_name(app: &App) -> (name: String)
    ensures
        name@ == app@.header_epic(),
{
    match app.epic_filter {
        None => "All Epics".to_string(),
        Some(_) => {
            let row = epic_row(&app.epics, app.epic_filter);
            if row == 0 {
                "Unknown".to_string()
            } else {
                proof {
                    assert(epics_view(app.epics@)[row - 1] == app.epics@[row - 1]@);
                }
                app.epics[row - 1].title.clone()
            }
        },
    }
}

/// The text of the footer of the board.
pub fn footer_text(app: &App) -> (text: String)
    ensures
        text@ == app@.footer(),
{
    match &app.status_message {
        Some(message) => message.clone(),
        None => match app.mode {
            Mode::Board => "hjkl/↑↓←→: nav  a/s: move story  Enter: open  n: new  d: delete  e: epics  q: quit".to_string(),
            _ => String::new(),
        },
    }
}

/// The card to highlight in a column, if any.
pub fn column_cursor(app: &App, column: usize) -> (cursor: Option<usize>)
    requires
        column < 4,
    ensures
        match cursor {
            Some(card) => app@.cursor(column as int) == Some(card as int),
            None => app@.cursor(column as int).is_none(),
        },
{
    if column == app.selected_column && app.columns[column].len() > 0 {
        Some(app.selected_card[column])
    } else {
        None
    }
}

/// The rows of the epic list, from "All Epics" down.
pub fn epic_rows(app: &App) -> (rows: Vec<EpicRow>)
    ensures
        rows@.len() == app.epics@.len() + 1,
        forall|row: int|
            0 <= row < rows@.len() ==> (#[trigger] rows@[row]).label@ == app@.epic_row_label(row)
                && rows@[row].highlighted == app@.epic_row_highlighted(row),
{
    let mut rows: Vec<EpicRow> = Vec::new();
    rows.push(
        EpicRow {
            label: " All Epics".to_string(),
            highlighted: app.epic_filter.is_none() && app.list_selection == 0,
        },
    );
    let mut i: usize = 0;
    while i < app.epics.len()
        invariant
            0 <= i <= app.epics@.len(),
            rows@.len() == i + 1,
            forall|row: int|
                0 <= row < rows@.len() ==> (#[trigger] rows@[row]).label@ == app@.epic_row_label(
                    row,
                ) && rows@[row].highlighted == app@.epic_row_highlighted(row),
        decreases app.epics@.len() - i,
    {
        let mut label = String::from_str(" ");
        label.append(app.epics[i].title.as_str());
        proof {
            assert(epics_view(app.epics@)[i as int] == app.epics@[i as int]@);
        }
        rows.push(EpicRow { label, highlighted: app.list_selection == i + 1 });
        i += 1;
    }
    rows
}

} // verus!
