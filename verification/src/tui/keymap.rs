//! Key bindings: which action a key press stands for in each input context.

use vstd::prelude::*;
use crate::tui::action::Action;
use crate::tui::app::Section;

verus! {

/// A key, as the terminal reports it.
#[derive(Debug, Clone, Copy, PartialEq, Eq, Structural)]
pub enum KeyCode {
    Char(char),
    Enter,
    Esc,
    Tab,
    BackTab,
    Up,
    Down,
    Left,
    Right,
    Backspace,
    /// Any other key (function keys, Home, End, ...).
    Other,
}

/// The modifier bits of a key press (those of the terminal library).
pub const SHIFT: u8 = 0b0000_0001;
pub const CONTROL: u8 = 0b0000_0010;
pub const ALT: u8 = 0b0000_0100;

/// A key press: the key and the set of modifiers held.
#[derive(Debug, Clone, Copy, PartialEq, Eq, Structural)]
pub struct KeyEvent {
    pub code: KeyCode,
    pub modifiers: u8,
}

pub open spec fn has_modifier(key: KeyEvent, m: u8) -> bool {
    key.modifiers & m != 0
}

pub fn holds(key: KeyEvent, m: u8) -> (b: bool)
    ensures
        b == has_modifier(key, m),
{
    key.modifiers & m != 0
}

/// Where keyboard input currently goes.
#[derive(Debug, Clone, Copy, PartialEq, Eq, Structural)]
pub enum InputContext {
    Global,
    Sidebar,
    ChatInput,
    ChatMessages,
    ModelsTable,
    RunningTable,
    ConfigTable,
}

/// The digits 1 to 6 jump to the sections in sidebar order.
pub open spec fn digit_section(c: char) -> Option<Section> {
    if c == '1' {
        Some(Section::Chat)
    } else if c == '2' {
        Some(Section::Models)
    } else if c == '3' {
        Some(Section::Running)
    } else if c == '4' {
        Some(Section::Library)
    } else if c == '5' {
        Some(Section::Benchmarks)
    } else if c == '6' {
        Some(Section::Config)
    } else {
        None
    }
}

fn jump_for_digit(c: char) -> (r: Option<Section>)
    ensures
        r == digit_section(c),
{
    if c == '1' {
        Some(Section::Chat)
    } else if c == '2' {
        Some(Section::Models)
    } else if c == '3' {
        Some(Section::Running)
    } else if c == '4' {
        Some(Section::Library)
    } else if c == '5' {
        Some(Section::Benchmarks)
    } else if c == '6' {
        Some(Section::Config)
    } else {
        None
    }
}

pub open spec fn global_binding(key: KeyEvent) -> Action {
    match key.code {
        KeyCode::Char(c) => if c == 'q' {
            Action::Quit
        } else if c == '?' {
            Action::ToggleHelp
        } else {
            match digit_section(c) {
                Some(s) => Action::JumpToSection(s),
                None => Action::NoOp,
            }
        },
        KeyCode::Tab | KeyCode::BackTab => Action::FocusSidebar,
        _ => Action::NoOp,
    }
}

pub open spec fn sidebar_binding(key: KeyEvent) -> Action {
    match key.code {
        KeyCode::Char(c) => if c == 'q' {
            Action::Quit
        } else if c == '?' {
            Action::ToggleHelp
        } else if c == 'j' {
            Action::NavigateDown
        } else if c == 'k' {
            Action::NavigateUp
        } else if c == 'l' {
            Action::SelectSection
        } else {
            match digit_section(c) {
                Some(s) => Action::JumpToSection(s),
                None => Action::NoOp,
            }
        },
        KeyCode::Down => Action::NavigateDown,
        KeyCode::Up => Action::NavigateUp,
        KeyCode::Enter | KeyCode::Right => Action::SelectSection,
        _ => Action::NoOp,
    }
}

/// In the chat input, unbound keys are left to the text area.
pub open spec fn chat_input_binding(key: KeyEvent) -> Action {
    match key.code {
        KeyCode::Enter => if key.modifiers == 0 {
            Action::SendMessage
        } else {
            Action::NoOp
        },
        KeyCode::Char(c) => if c == 'm' && has_modifier(key, ALT) {
            Action::ToggleModelPicker
        } else if c == '?' && has_modifier(key, CONTROL) {
            Action::ToggleHelp
        } else {
            Action::NoOp
        },
        KeyCode::Esc => Action::FocusSidebar,
        KeyCode::Tab => Action::FocusSidebar,
        _ => Action::NoOp,
    }
}

pub open spec fn chat_messages_binding(key: KeyEvent) -> Action {
    match key.code {
        KeyCode::Char(c) => if c == 'q' {
            Action::Quit
        } else if c == '?' {
            Action::ToggleHelp
        } else if c == 'j' {
            Action::ScrollDown
        } else if c == 'k' {
            Action::ScrollUp
        } else if c == 'd' && has_modifier(key, CONTROL) {
            Action::ScrollPageDown
        } else if c == 'u' && has_modifier(key, CONTROL) {
            Action::ScrollPageUp
        } else if c == 'G' {
            Action::ScrollToBottom
        } else if c == 'i' {
            Action::FocusChatInput
        } else if c == 'n' {
            Action::NewChat
        } else if c == 'm' && has_modifier(key, ALT) {
            Action::ToggleModelPicker
        } else {
            Action::NoOp
        },
        KeyCode::Down => Action::ScrollDown,
        KeyCode::Up => Action::ScrollUp,
        KeyCode::Enter => Action::FocusChatInput,
        KeyCode::Tab | KeyCode::BackTab | KeyCode::Esc => Action::FocusSidebar,
        _ => Action::NoOp,
    }
}

pub open spec fn models_binding(key: KeyEvent) -> Action {
    match key.code {
        KeyCode::Char(c) => if c == 'q' {
            Action::Quit
        } else if c == '?' {
            Action::ToggleHelp
        } else if c == 'j' {
            Action::NavigateDown
        } else if c == 'k' {
            Action::NavigateUp
        } else if c == 'r' {
            Action::RefreshModels
        } else if c == 'd' {
            Action::DeleteModel
        } else if c == 'p' {
            Action::PullModel
        } else if c == 'c' {
            Action::CopyModel
        } else {
            Action::NoOp
        },
        KeyCode::Down => Action::NavigateDown,
        KeyCode::Up => Action::NavigateUp,
        KeyCode::Enter => Action::ShowModelDetail,
        KeyCode::Tab | KeyCode::BackTab | KeyCode::Esc => Action::FocusSidebar,
        _ => Action::NoOp,
    }
}

pub open spec fn running_binding(key: KeyEvent) -> Action {
    match key.code {
        KeyCode::Char(c) => if c == 'q' {
            Action::Quit
        } else if c == '?' {
            Action::ToggleHelp
        } else if c == 'j' {
            Action::NavigateDown
        } else if c == 'k' {
            Action::NavigateUp
        } else if c == 'u' {
            Action::UnloadModel
        } else if c == 'r' {
            Action::RefreshRunning
        } else {
            Action::NoOp
        },
        KeyCode::Down => Action::NavigateDown,
        KeyCode::Up => Action::NavigateUp,
        KeyCode::Tab | KeyCode::BackTab | KeyCode::Esc => Action::FocusSidebar,
        _ => Action::NoOp,
    }
}

pub open spec fn config_binding(key: KeyEvent) -> Action {
    match key.code {
        KeyCode::Char(c) => if c == 'q' {
            Action::Quit
        } else if c == '?' {
            Action::ToggleHelp
        } else if c == 'j' {
            Action::NavigateDown
        } else if c == 'k' {
            Action::NavigateUp
        } else if c == 'a' {
            Action::ConfigAddProfile
        } else if c == 'd' {
            Action::ConfigRemoveProfile
        } else if c == 't' {
            Action::ConfigTestConnection
        } else {
            Action::NoOp
        },
        KeyCode::Down => Action::NavigateDown,
        KeyCode::Up => Action::NavigateUp,
        KeyCode::Enter => Action::ConfigSwitchProfile,
        KeyCode::Tab | KeyCode::BackTab | KeyCode::Esc => Action::FocusSidebar,
        _ => Action::NoOp,
    }
}

/// The action bound to `key` in `context`; Ctrl+C quits everywhere.
pub open spec fn key_action(key: KeyEvent, context: InputContext) -> Action {
    if key.code == KeyCode::Char('c') && has_modifier(key, CONTROL) {
        Action::Quit
    } else {
        match context {
            InputContext::Sidebar => sidebar_binding(key),
            InputContext::ChatInput => chat_input_binding(key),
            InputContext::ChatMessages => chat_messages_binding(key),
            InputContext::ModelsTable => models_binding(key),
            InputContext::RunningTable => running_binding(key),
            InputContext::ConfigTable => config_binding(key),
            InputContext::Global => global_binding(key),
        }
    }
}

fn map_global_key(key: KeyEvent) -> (a: Action)
    ensures
        a == global_binding(key),
{
    match key.code {
        KeyCode::Char(c) => if c == 'q' {
            Action::Quit
        } else if c == '?' {
            Action::ToggleHelp
        } else {
            match jump_for_digit(c) {
                Some(s) => Action::JumpToSection(s),
                None => Action::NoOp,
            }
        },
        KeyCode::Tab | KeyCode::BackTab => Action::FocusSidebar,
        _ => Action::NoOp,
    }
}

fn map_sidebar_key(key: KeyEvent) -> (a: Action)
    ensures
        a == sidebar_binding(key),
{
    match key.code {
        KeyCode::Char(c) => if c == 'q' {
            Action::Quit
        } else if c == '?' {
            Action::ToggleHelp
        } else if c == 'j' {
            Action::NavigateDown
        } else if c == 'k' {
            Action::NavigateUp
        } else if c == 'l' {
            Action::SelectSection
        } else {
            match jump_for_digit(c) {
                Some(s) => Action::JumpToSection(s),
                None => Action::NoOp,
            }
        },
        KeyCode::Down => Action::NavigateDown,
        KeyCode::Up => Action::NavigateUp,
        KeyCode::Enter | KeyCode::Right => Action::SelectSection,
        _ => Action::NoOp,
    }
}

fn map_chat_input_key(key: KeyEvent) -> (a: Action)
    ensures
        a == chat_input_binding(key),
{
    match key.code {
        KeyCode::Enter => if key.modifiers == 0 {
            Action::SendMessage
        } else {
            Action::NoOp
        },
        KeyCode::Char(c) => if c == 'm' && holds(key, ALT) {
            Action::ToggleModelPicker
        } else if c == '?' && holds(key, CONTROL) {
            Action::ToggleHelp
        } else {
            Action::NoOp
        },
        KeyCode::Esc => Action::FocusSidebar,
        KeyCode::Tab => Action::FocusSidebar,
        _ => Action::NoOp,
    }
}

fn map_chat_messages_key(key: KeyEvent) -> (a: Action)
    ensures
        a == chat_messages_binding(key),
{
    match key.code {
        KeyCode::Char(c) => if c == 'q' {
            Action::Quit
        } else if c == '?' {
            Action::ToggleHelp
        } else if c == 'j' {
            Action::ScrollDown
        } else if c == 'k' {
            Action::ScrollUp
        } else if c == 'd' && holds(key, CONTROL) {
            Action::ScrollPageDown
        } else if c == 'u' && holds(key, CONTROL) {
            Action::ScrollPageUp
        } else if c == 'G' {
            Action::ScrollToBottom
        } else if c == 'i' {
            Action::FocusChatInput
        } else if c == 'n' {
            Action::NewChat
        } else if c == 'm' && holds(key, ALT) {
            Action::ToggleModelPicker
        } else {
            Action::NoOp
        },
        KeyCode::Down => Action::ScrollDown,
        KeyCode::Up => Action::ScrollUp,
        KeyCode::Enter => Action::FocusChatInput,
        KeyCode::Tab | KeyCode::BackTab | KeyCode::Esc => Action::FocusSidebar,
        _ => Action::NoOp,
    }
}

fn map_models_key(key: KeyEvent) -> (a: Action)
    ensures
        a == models_binding(key),
{
    match key.code {
        KeyCode::Char(c) => if c == 'q' {
            Action::Quit
        } else if c == '?' {
            Action::ToggleHelp
        } else if c == 'j' {
            Action::NavigateDown
        } else if c == 'k' {
            Action::NavigateUp
        } else if c == 'r' {
            Action::RefreshModels
        } else if c == 'd' {
            Action::DeleteModel
        } else if c == 'p' {
            Action::PullModel
        } else if c == 'c' {
            Action::CopyModel
        } else {
            Action::NoOp
        },
        KeyCode::Down => Action::NavigateDown,
        KeyCode::Up => Action::NavigateUp,
        KeyCode::Enter => Action::ShowModelDetail,
        KeyCode::Tab | KeyCode::BackTab | KeyCode::Esc => Action::FocusSidebar,
        _ => Action::NoOp,
    }
}

fn map_running_key(key: KeyEvent) -> (a: Action)
    ensures
        a == running_binding(key),
{
    match key.code {
        KeyCode::Char(c) => if c == 'q' {
            Action::Quit
        } else if c == '?' {
            Action::ToggleHelp
        } else if c == 'j' {
            Action::NavigateDown
        } else if c == 'k' {
            Action::NavigateUp
        } else if c == 'u' {
            Action::UnloadModel
        } else if c == 'r' {
            Action::RefreshRunning
        } else {
            Action::NoOp
        },
        KeyCode::Down => Action::NavigateDown,
        KeyCode::Up => Action::NavigateUp,
        KeyCode::Tab | KeyCode::BackTab | KeyCode::Esc => Action::FocusSidebar,
        _ => Action::NoOp,
    }
}

fn map_config_key(key: KeyEvent) -> (a: Action)
    ensures
        a == config_binding(key),
{
    match key.code {
        KeyCode::Char(c) => if c == 'q' {
            Action::Quit
        } else if c == '?' {
            Action::ToggleHelp
        } else if c == 'j' {
            Action::NavigateDown
        } else if c == 'k' {
            Action::NavigateUp
        } else if c == 'a' {
            Action::ConfigAddProfile
        } else if c == 'd' {
            Action::ConfigRemoveProfile
        } else if c == 't' {
            Action::ConfigTestConnection
        } else {
            Action::NoOp
        },
        KeyCode::Down => Action::NavigateDown,
        KeyCode::Up => Action::NavigateUp,
        KeyCode::Enter => Action::ConfigSwitchProfile,
        KeyCode::Tab | KeyCode::BackTab | KeyCode::Esc => Action::FocusSidebar,
        _ => Action::NoOp,
    }
}

/// Ctrl+C quits from every context.
pub proof fn law_ctrl_c_quits(key: KeyEvent, context: InputContext)
    requires
        key.code == KeyCode::Char('c'),
        has_modifier(key, CONTROL),
    ensures
        key_action(key, context) == Action::Quit,
{
}

/// The help opens with `?` in every context but the chat input, where
/// `?` is typed and Ctrl+? opens it.
pub proof fn law_help_key(key: KeyEvent, context: InputContext)
    requires
        key.code == KeyCode::Char('?'),
        context != InputContext::ChatInput || has_modifier(key, CONTROL),
    ensures
        key_action(key, context) == Action::ToggleHelp,
{
}

/// `q` quits from every context but the chat input, where it is typed.
pub proof fn law_q_quits(key: KeyEvent, context: InputContext)
    requires
        key.code == KeyCode::Char('q'),
        context != InputContext::ChatInput,
    ensures
        key_action(key, context) == Action::Quit,
{
}

/// Outside the chat and the tables, the digit keys 1 to 6 jump to the
/// section at that position of the sidebar.
pub proof fn law_digit_jumps(key: KeyEvent, context: InputContext, i: usize)
    requires
        context == InputContext::Global || context == InputContext::Sidebar,
        i < 6,
        key.code == KeyCode::Char(seq!['1', '2', '3', '4', '5', '6'][i as int]),
    ensures
        key_action(key, context) == Action::JumpToSection(
            crate::tui::app::section_at(i)->0,
        ),
{
}

/// The commands of the Running panel: `u` unloads the selected model, `r`
/// lists the loaded models again, `j`/`k` and the arrows move the selection.
pub proof fn law_running_keys(key: KeyEvent)
    ensures
        key.code == KeyCode::Char('u') ==> key_action(key, InputContext::RunningTable)
            == Action::UnloadModel,
        key.code == KeyCode::Char('r') ==> key_action(key, InputContext::RunningTable)
            == Action::RefreshRunning,
        key.code == KeyCode::Char('j') || key.code == KeyCode::Down ==> key_action(
            key,
            InputContext::RunningTable,
        ) == Action::NavigateDown,
        key.code == KeyCode::Char('k') || key.code == KeyCode::Up ==> key_action(
            key,
            InputContext::RunningTable,
        ) == Action::NavigateUp,
{
}

/// The commands of the Models panel: `r` refreshes, `d` deletes, `p` pulls,
/// `c` copies (Ctrl+C still quits), Enter shows the details.
pub proof fn law_models_keys(key: KeyEvent)
    ensures
        key.code == KeyCode::Char('r') ==> key_action(key, InputContext::ModelsTable)
            == Action::RefreshModels,
        key.code == KeyCode::Char('d') ==> key_action(key, InputContext::ModelsTable)
            == Action::DeleteModel,
        key.code == KeyCode::Char('p') ==> key_action(key, InputContext::ModelsTable)
            == Action::PullModel,
        key.code == KeyCode::Char('c') && !has_modifier(key, CONTROL) ==> key_action(
            key,
            InputContext::ModelsTable,
        ) == Action::CopyModel,
        key.code == KeyCode::Enter ==> key_action(key, InputContext::ModelsTable)
            == Action::ShowModelDetail,
        key.code == KeyCode::Char('j') || key.code == KeyCode::Down ==> key_action(
            key,
            InputContext::ModelsTable,
        ) == Action::NavigateDown,
        key.code == KeyCode::Char('k') || key.code == KeyCode::Up ==> key_action(
            key,
            InputContext::ModelsTable,
        ) == Action::NavigateUp,
{
}

/// The commands of the Config panel: `a` adds a profile, `d` removes one,
/// `t` tests its server, Enter switches to it.
pub proof fn law_config_keys(key: KeyEvent)
    ensures
        key.code == KeyCode::Char('a') ==> key_action(key, InputContext::ConfigTable)
            == Action::ConfigAddProfile,
        key.code == KeyCode::Char('d') ==> key_action(key, InputContext::ConfigTable)
            == Action::ConfigRemoveProfile,
        key.code == KeyCode::Char('t') ==> key_action(key, InputContext::ConfigTable)
            == Action::ConfigTestConnection,
        key.code == KeyCode::Enter ==> key_action(key, InputContext::ConfigTable)
            == Action::ConfigSwitchProfile,
{
}

/// The chat keys: Enter alone sends the typed message and Alt+M opens the
/// model picker from the input; in the message list `n` starts a new chat,
/// `i` and Enter go back to the input, `G` jumps to the end.
pub proof fn law_chat_keys(key: KeyEvent)
    ensures
        key.code == KeyCode::Enter && key.modifiers == 0 ==> key_action(
            key,
            InputContext::ChatInput,
        ) == Action::SendMessage,
        key.code == KeyCode::Char('m') && has_modifier(key, ALT) ==> key_action(
            key,
            InputContext::ChatInput,
        ) == Action::ToggleModelPicker && key_action(key, InputContext::ChatMessages)
            == Action::ToggleModelPicker,
        key.code == KeyCode::Char('n') ==> key_action(key, InputContext::ChatMessages)
            == Action::NewChat,
        key.code == KeyCode::Char('i') || key.code == KeyCode::Enter ==> key_action(
            key,
            InputContext::ChatMessages,
        ) == Action::FocusChatInput,
        key.code == KeyCode::Char('G') ==> key_action(key, InputContext::ChatMessages)
            == Action::ScrollToBottom,
{
}

/// The action bound to `key` in `context`.
pub fn map_key_event(key: KeyEvent, context: &InputContext) -> (a: Action)
    ensures
        a == key_action(key, *context),
{
    if key.code == KeyCode::Char('c') && holds(key, CONTROL) {
        return Action::Quit;
    }
    match context {
        InputContext::Sidebar => map_sidebar_key(key),
        InputContext::ChatInput => map_chat_input_key(key),
        InputContext::ChatMessages => map_chat_messages_key(key),
        InputContext::ModelsTable => map_models_key(key),
        InputContext::RunningTable => map_running_key(key),
        InputContext::ConfigTable => map_config_key(key),
        InputContext::Global => map_global_key(key),
    }
}

} // verus!
