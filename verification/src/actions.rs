//! The closed vocabulary of user intents.

use vstd::prelude::*;

verus! {

/// A decoded user intent, produced by the key mapper and consumed by the
/// dispatcher. An action carries no mode of its own: what it does depends on
/// the state it is dispatched in.
#[derive(Debug, Clone, Copy, PartialEq, Eq, Structural)]
pub enum Action {
    Quit,
    MoveLeft,
    MoveRight,
    MoveUp,
    MoveDown,
    MoveStoryLeft,
    MoveStoryRight,
    OpenDetail,
    CloseDetail,
    OpenEpicList,
    NewStory,
    EditStoryTitle,
    EditStoryBody,
    InputChar(char),
    InputBackspace,
    InputConfirm,
    InputCancel,
    DeleteStory,
    ConfirmYes,
    ConfirmNo,
    ToggleTask,
    NewTask,
    DeleteTask,
}

} // verus!
