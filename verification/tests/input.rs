use stack::actions::Action;
use stack::app::{ConfirmAction, InputTarget, Mode};
use stack::input::{
    handle_board_key, handle_confirm_key, handle_detail_key, handle_epic_list_key,
    handle_input_key, map_key, KeyCode, KeyEvent, KeyModifiers,
};

fn key(code: KeyCode) -> KeyEvent {
    KeyEvent::new(code, KeyModifiers::none())
}

fn shift_key(code: KeyCode) -> KeyEvent {
    KeyEvent::new(code, KeyModifiers::shift())
}

fn control_key(code: KeyCode) -> KeyEvent {
    KeyEvent::new(code, KeyModifiers::control())
}

#[test]
fn board_navigation() {
    assert_eq!(handle_board_key(key(KeyCode::Char('h'))), Some(Action::MoveLeft));
    assert_eq!(handle_board_key(key(KeyCode::Char('l'))), Some(Action::MoveRight));
    assert_eq!(handle_board_key(key(KeyCode::Char('j'))), Some(Action::MoveDown));
    assert_eq!(handle_board_key(key(KeyCode::Char('k'))), Some(Action::MoveUp));
}

#[test]
fn board_story_movement() {
    assert_eq!(handle_board_key(shift_key(KeyCode::Char('H'))), Some(Action::MoveStoryLeft));
    assert_eq!(handle_board_key(shift_key(KeyCode::Char('L'))), Some(Action::MoveStoryRight));
}

#[test]
fn board_actions() {
    assert_eq!(handle_board_key(key(KeyCode::Enter)), Some(Action::OpenDetail));
    assert_eq!(handle_board_key(key(KeyCode::Char('n'))), Some(Action::NewStory));
    assert_eq!(handle_board_key(key(KeyCode::Char('q'))), Some(Action::Quit));
}

#[test]
fn detail_navigation() {
    assert_eq!(handle_detail_key(key(KeyCode::Char('j'))), Some(Action::MoveDown));
    assert_eq!(handle_detail_key(key(KeyCode::Char(' '))), Some(Action::ToggleTask));
    assert_eq!(handle_detail_key(key(KeyCode::Esc)), Some(Action::CloseDetail));
}

#[test]
fn input_mode() {
    assert_eq!(handle_input_key(key(KeyCode::Char('a'))), Some(Action::InputChar('a')));
    assert_eq!(handle_input_key(key(KeyCode::Enter)), Some(Action::InputConfirm));
    assert_eq!(handle_input_key(key(KeyCode::Esc)), Some(Action::InputCancel));
    assert_eq!(handle_input_key(key(KeyCode::Backspace)), Some(Action::InputBackspace));
}

#[test]
fn modifier_bits() {
    assert_eq!(KeyModifiers::none().bits, 0);
    assert_eq!(KeyModifiers::shift().bits, 1);
    assert_eq!(KeyModifiers::control().bits, 2);
    let event = KeyEvent::new(KeyCode::Enter, KeyModifiers::shift());
    assert_eq!(event.code, KeyCode::Enter);
    assert_eq!(event.modifiers, KeyModifiers { bits: 1 });
}

#[test]
fn board_quit_keys() {
    assert_eq!(handle_board_key(control_key(KeyCode::Char('c'))), Some(Action::Quit));
    assert_eq!(handle_board_key(key(KeyCode::Char('c'))), None);
    assert_eq!(handle_board_key(shift_key(KeyCode::Char('q'))), Some(Action::Quit));
    assert_eq!(handle_board_key(control_key(KeyCode::Char('q'))), Some(Action::Quit));
}

#[test]
fn board_movement_needs_exact_modifiers() {
    assert_eq!(handle_board_key(shift_key(KeyCode::Char('h'))), None);
    assert_eq!(handle_board_key(control_key(KeyCode::Char('j'))), None);
    assert_eq!(handle_board_key(key(KeyCode::Char('H'))), None);
    assert_eq!(handle_board_key(key(KeyCode::Char('L'))), None);
    let both = KeyEvent::new(KeyCode::Char('H'), KeyModifiers { bits: 3 });
    assert_eq!(handle_board_key(both), None);
}

#[test]
fn board_remaining_keys() {
    assert_eq!(handle_board_key(key(KeyCode::Char('d'))), Some(Action::DeleteStory));
    assert_eq!(handle_board_key(key(KeyCode::Char('e'))), Some(Action::OpenEpicList));
    assert_eq!(handle_board_key(shift_key(KeyCode::Enter)), Some(Action::OpenDetail));
    assert_eq!(handle_board_key(control_key(KeyCode::Char('n'))), Some(Action::NewStory));
    assert_eq!(handle_board_key(key(KeyCode::Esc)), None);
    assert_eq!(handle_board_key(key(KeyCode::Backspace)), None);
    assert_eq!(handle_board_key(key(KeyCode::Other)), None);
    assert_eq!(handle_board_key(key(KeyCode::Char('x'))), None);
}

#[test]
fn detail_remaining_keys() {
    assert_eq!(handle_detail_key(key(KeyCode::Char('k'))), Some(Action::MoveUp));
    assert_eq!(handle_detail_key(key(KeyCode::Char('n'))), Some(Action::NewTask));
    assert_eq!(handle_detail_key(key(KeyCode::Char('d'))), Some(Action::DeleteTask));
    assert_eq!(handle_detail_key(key(KeyCode::Char('e'))), Some(Action::EditStoryTitle));
    assert_eq!(handle_detail_key(key(KeyCode::Char('b'))), Some(Action::EditStoryBody));
    assert_eq!(handle_detail_key(key(KeyCode::Char('q'))), Some(Action::Quit));
    assert_eq!(handle_detail_key(key(KeyCode::Enter)), None);
    assert_eq!(handle_detail_key(key(KeyCode::Char('h'))), None);
}

#[test]
fn epic_list_keys() {
    assert_eq!(handle_epic_list_key(key(KeyCode::Esc)), Some(Action::CloseDetail));
    assert_eq!(handle_epic_list_key(key(KeyCode::Char('j'))), Some(Action::MoveDown));
    assert_eq!(handle_epic_list_key(key(KeyCode::Char('k'))), Some(Action::MoveUp));
    assert_eq!(handle_epic_list_key(key(KeyCode::Enter)), Some(Action::InputConfirm));
    assert_eq!(handle_epic_list_key(key(KeyCode::Char('q'))), Some(Action::Quit));
    assert_eq!(handle_epic_list_key(key(KeyCode::Char('n'))), None);
    assert_eq!(handle_epic_list_key(key(KeyCode::Backspace)), None);
}

#[test]
fn input_types_every_character() {
    assert_eq!(handle_input_key(key(KeyCode::Char('q'))), Some(Action::InputChar('q')));
    assert_eq!(handle_input_key(shift_key(KeyCode::Char('Q'))), Some(Action::InputChar('Q')));
    assert_eq!(handle_input_key(key(KeyCode::Char(' '))), Some(Action::InputChar(' ')));
    assert_eq!(handle_input_key(key(KeyCode::Other)), None);
}

#[test]
fn confirm_keys() {
    assert_eq!(handle_confirm_key(key(KeyCode::Char('y'))), Some(Action::ConfirmYes));
    assert_eq!(handle_confirm_key(key(KeyCode::Char('n'))), Some(Action::ConfirmNo));
    assert_eq!(handle_confirm_key(key(KeyCode::Esc)), Some(Action::ConfirmNo));
    assert_eq!(handle_confirm_key(key(KeyCode::Enter)), None);
    assert_eq!(handle_confirm_key(key(KeyCode::Char('q'))), None);
}

#[test]
fn map_key_picks_the_table_of_the_mode() {
    let n = key(KeyCode::Char('n'));
    assert_eq!(map_key(Mode::Board, n), Some(Action::NewStory));
    assert_eq!(map_key(Mode::Detail, n), Some(Action::NewTask));
    assert_eq!(map_key(Mode::EpicList, n), None);
    assert_eq!(map_key(Mode::Input(InputTarget::NewStory), n), Some(Action::InputChar('n')));
    assert_eq!(map_key(Mode::Input(InputTarget::EditStoryBody), n), Some(Action::InputChar('n')));
    assert_eq!(map_key(Mode::Confirm(ConfirmAction::DeleteStory), n), Some(Action::ConfirmNo));
    let esc = key(KeyCode::Esc);
    assert_eq!(map_key(Mode::Board, esc), None);
    assert_eq!(map_key(Mode::Detail, esc), Some(Action::CloseDetail));
    assert_eq!(map_key(Mode::EpicList, esc), Some(Action::CloseDetail));
    assert_eq!(map_key(Mode::Input(InputTarget::EditStoryTitle), esc), Some(Action::InputCancel));
    assert_eq!(map_key(Mode::Confirm(ConfirmAction::DeleteStory), esc), Some(Action::ConfirmNo));
}
