//! The key mapper: a pure, mode-dependent function from a key press to an
//! optional action.

use vstd::prelude::*;
use crate::actions::Action;
use crate::app::Mode;

verus! {

/// The key that was pressed, as far as the key tables tell keys apart.
#[derive(Debug, Clone, Copy, PartialEq, Eq, Structural)]
pub enum KeyCode {
    Char(char),
    Enter,
    Esc,
    Backspace,
    /// Any key that no table mentions.
    Other,
}

/// The set of modifier keys held down, one bit each.
#[derive(Debug, Clone, Copy, PartialEq, Eq, Structural)]
pub struct KeyModifiers {
    pub bits: u8,
}

/// The bit of the shift key.
pub const SHIFT_BIT: u8 = 1;

/// The bit of the control key.
pub const CONTROL_BIT: u8 = 2;

impl KeyModifiers {
    /// No modifier held.
    pub fn none() -> (m: KeyModifiers)
        ensures
            m.bits == 0,
    {
        KeyModifiers { bits: 0 }
    }

    /// Shift alone.
    pub fn shift() -> (m: KeyModifiers)
        ensures
            m.bits == SHIFT_BIT,
    {
        KeyModifiers { bits: SHIFT_BIT }
    }

    /// Control alone.
    pub fn control() -> (m: KeyModifiers)
        ensures
            m.bits == CONTROL_BIT,
    {
        KeyModifiers { bits: CONTROL_BIT }
    }
}

/// One key press.
#[derive(Debug, Clone, Copy, PartialEq, Eq, Structural)]
pub struct KeyEvent {
    pub code: KeyCode,
    pub modifiers: KeyModifiers,
}

impl KeyEvent {
    /// A key pressed with the given modifiers held.
    pub fn new(code: KeyCode, modifiers: KeyModifiers) -> (key: KeyEvent)
        ensures
            key == (KeyEvent { code, modifiers }),
    {
        KeyEvent { code, modifiers }
    }
}

/// The key table of the board.
///
/// `q` quits whatever is held with it, and Ctrl-C quits; the movement keys
/// count only without a modifier, the story moves only with shift alone.
pub open spec fn board_key(key: KeyEvent) -> Option<Action> {
    let plain = key.modifiers.bits == 0;
    let shift = key.modifiers.bits == SHIFT_BIT;
    let control = key.modifiers.bits == CONTROL_BIT;
    match key.code {
        KeyCode::Enter => Some(Action::OpenDetail),
        KeyCode::Char(c) => if c == 'q' {
            Some(Action::Quit)
        } else if c == 'c' && control {
            Some(Action::Quit)
        } else if c == 'h' && plain {
            Some(Action::MoveLeft)
        } else if c == 'l' && plain {
            Some(Action::MoveRight)
        } else if c == 'j' && plain {
            Some(Action::MoveDown)
        } else if c == 'k' && plain {
            Some(Action::MoveUp)
        } else if c == 'H' && shift {
            Some(Action::MoveStoryLeft)
        } else if c == 'L' && shift {
            Some(Action::MoveStoryRight)
        } else if c == 'n' {
            Some(Action::NewStory)
        } else if c == 'd' {
            Some(Action::DeleteStory)
        } else if c == 'e' {
            Some(Action::OpenEpicList)
        } else {
            None
        },
        _ => None,
    }
}

/// The key table of the detail view. Modifiers are ignored.
pub open spec fn detail_key(key: KeyEvent) -> Option<Action> {
    match key.code {
        KeyCode::Esc => Some(Action::CloseDetail),
        KeyCode::Char(c) => if c == 'j' {
            Some(Action::MoveDown)
        } else if c == 'k' {
            Some(Action::MoveUp)
        } else if c == ' ' {
            Some(Action::ToggleTask)
        } else if c == 'n' {
            Some(Action::NewTask)
        } else if c == 'd' {
            Some(Action::DeleteTask)
        } else if c == 'e' {
            Some(Action::EditStoryTitle)
        } else if c == 'b' {
            Some(Action::EditStoryBody)
        } else if c == 'q' {
            Some(Action::Quit)
        } else {
            None
        },
        _ => None,
    }
}

/// The key table of the epic list. Modifiers are ignored.
pub open spec fn epic_list_key(key: KeyEvent) -> Option<Action> {
    match key.code {
        KeyCode::Esc => Some(Action::CloseDetail),
        KeyCode::Enter => Some(Action::InputConfirm),
        KeyCode::Char(c) => if c == 'j' {
            Some(Action::MoveDown)
        } else if c == 'k' {
            Some(Action::MoveUp)
        } else if c == 'q' {
            Some(Action::Quit)
        } else {
            None
        },
        _ => None,
    }
}

/// The key table of a text input: every character key types itself.
pub open spec fn input_key(key: KeyEvent) -> Option<Action> {
    match key.code {
        KeyCode::Enter => Some(Action::InputConfirm),
        KeyCode::Esc => Some(Action::InputCancel),
        KeyCode::Backspace => Some(Action::InputBackspace),
        KeyCode::Char(c) => Some(Action::InputChar(c)),
        KeyCode::Other => None,
    }
}

/// The key table of a yes/no question: `y` answers yes, `n` and Esc no.
pub open spec fn confirm_key(key: KeyEvent) -> Option<Action> {
    match key.code {
        KeyCode::Esc => Some(Action::ConfirmNo),
        KeyCode::Char(c) => if c == 'y' {
            Some(Action::ConfirmYes)
        } else if c == 'n' {
            Some(Action::ConfirmNo)
        } else {
            None
        },
        _ => None,
    }
}

/// The action, if any, that `key` stands for in `mode`.
pub open spec fn key_action(mode: Mode, key: KeyEvent) -> Option<Action> {
    match mode {
        Mode::Board => board_key(key),
        Mode::Detail => detail_key(key),
        Mode::EpicList => epic_list_key(key),
        Mode::Input(_) => input_key(key),
        Mode::Confirm(_) => confirm_key(key),
    }
}

/// The action of a key on the board.
pub fn handle_board_key(key: KeyEvent) -> (r: Option<Action>)
    ensures
        r == board_key(key),
{
    let plain = key.modifiers.bits == 0;
    let shift = key.modifiers.bits == SHIFT_BIT;
    let control = key.modifiers.bits == CONTROL_BIT;
    match key.code {
        KeyCode::Char('q') => Some(Action::Quit),
        KeyCode::Char('c') if control => Some(Action::Quit),
        KeyCode::Char('h') if plain => Some(Action::MoveLeft),
        KeyCode::Char('l') if plain => Some(Action::MoveRight),
        KeyCode::Char('j') if plain => Some(Action::MoveDown),
        KeyCode::Char('k') if plain => Some(Action::MoveUp),
        KeyCode::Char('H') if shift => Some(Action::MoveStoryLeft),
        KeyCode::Char('L') if shift => Some(Action::MoveStoryRight),
        KeyCode::Enter => Some(Action::OpenDetail),
        KeyCode::Char('n') => Some(Action::NewStory),
        KeyCode::Char('d') => Some(Action::DeleteStory),
        KeyCode::Char('e') => Some(Action::OpenEpicList),
        _ => None,
    }
}

/// The action of a key in the detail view.
pub fn handle_detail_key(key: KeyEvent) -> (r: Option<Action>)
    ensures
        r == detail_key(key),
{
    match key.code {
        KeyCode::Esc => Some(Action::CloseDetail),
        KeyCode::Char('j') => Some(Action::MoveDown),
        KeyCode::Char('k') => Some(Action::MoveUp),
        KeyCode::Char(' ') => Some(Action::ToggleTask),
        KeyCode::Char('n') => Some(Action::NewTask),
        KeyCode::Char('d') => Some(Action::DeleteTask),
        KeyCode::Char('e') => Some(Action::EditStoryTitle),
        KeyCode::Char('b') => Some(Action::EditStoryBody),
        KeyCode::Char('q') => Some(Action::Quit),
        _ => None,
    }
}

/// The action of a key in the epic list.
pub fn handle_epic_list_key(key: KeyEvent) -> (r: Option<Action>)
    ensures
        r == epic_list_key(key),
{
    match key.code {
        KeyCode::Esc => Some(Action::CloseDetail),
        KeyCode::Char('j') => Some(Action::MoveDown),
        KeyCode::Char('k') => Some(Action::MoveUp),
        KeyCode::Enter => Some(Action::InputConfirm),
        KeyCode::Char('q') => Some(Action::Quit),
        _ => None,
    }
}

/// The action of a key in a text input.
pub fn handle_input_key(key: KeyEvent) -> (r: Option<Action>)
    ensures
        r == input_key(key),
{
    match key.code {
        KeyCode::Enter => Some(Action::InputConfirm),
        KeyCode::Esc => Some(Action::InputCancel),
        KeyCode::Backspace => Some(Action::InputBackspace),
        KeyCode::Char(c) => Some(Action::InputChar(c)),
        _ => None,
    }
}

/// The action of a key at a yes/no question.
pub fn handle_confirm_key(key: KeyEvent) -> (r: Option<Action>)
    ensures
        r == confirm_key(key),
{
    match key.code {
        KeyCode::Char('y') => Some(Action::ConfirmYes),
        KeyCode::Char('n') | KeyCode::Esc => Some(Action::ConfirmNo),
        _ => None,
    }
}

/// Maps a key press to the action it stands for in the given mode; a key
/// with no meaning there maps to nothing.
pub fn map_key(mode: Mode, key: KeyEvent) -> (r: Option<Action>)
    ensures
        r == key_action(mode, key),
{
    match mode {
        Mode::Board => handle_board_key(key),
        Mode::Detail => handle_detail_key(key),
        Mode::EpicList => handle_epic_list_key(key),
        Mode::Input(_) => handle_input_key(key),
        Mode::Confirm(_) => handle_confirm_key(key),
    }
}

} // verus!
