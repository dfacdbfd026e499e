//! What a key press asks the interface to do.

use vstd::prelude::*;
use crate::tui::app::Section;

verus! {

#[derive(Debug, Clone, Copy, PartialEq, Eq, Structural)]
pub enum Action {
    Quit,
    ToggleHelp,
    FocusSidebar,
    FocusMainPanel,
    NavigateUp,
    NavigateDown,
    SelectSection,
    JumpToSection(Section),
    // Chat
    SendMessage,
    ToggleModelPicker,
    ScrollUp,
    ScrollDown,
    ScrollPageUp,
    ScrollPageDown,
    ScrollToBottom,
    NewChat,
    FocusChatInput,
    FocusChatMessages,
    // Models
    RefreshModels,
    ShowModelDetail,
    DeleteModel,
    PullModel,
    CopyModel,
    // Running
    RefreshRunning,
    UnloadModel,
    // Config
    ConfigAddProfile,
    ConfigRemoveProfile,
    ConfigSwitchProfile,
    ConfigTestConnection,
    // Confirmation dialog
    ConfirmYes,
    ConfirmNo,
    // Model picker
    PickerConfirm,
    PickerCancel,
    // Close overlay
    CloseOverlay,
    NoOp,
}

} // verus!
