//! Key presses: which overlay or binding handles a key, and what each action
//! does.

use vstd::prelude::*;
use crate::tui::action::Action;
use crate::tui::app::{App, ChatFocus, ChatState, Effect, Focus, keeps_limits};
use crate::tui::app_actions::{
    add_profile_input_post, confirm_delete_post, confirm_unload_post, fetch_models_post,
    fetch_running_post, jump_post, navigated, open_copy_post, open_pull_post, picker_toggled,
    scrolled, select_section_post, send_post, show_detail_post,
};
use crate::tui::app_dialogs::{
    confirm_key_post, detail_key_post, picker_key_post, pull_key_post, remove_profile_post,
    switch_profile_post, test_profile_post, text_key_post,
};
use crate::tui::keymap::{KeyCode, KeyEvent, key_action, map_key_event};
use crate::text::trim;

verus! {

/// What an action does to the state and which requests it starts; `input`
/// is the text of the chat input box.
pub open spec fn action_post(
    a: App,
    b: App,
    eo: Seq<Effect>,
    en: Seq<Effect>,
    action: Action,
    input: Seq<char>,
) -> bool {
    match action {
        Action::Quit => b == App { should_quit: true, ..a } && en == eo,
        Action::ToggleHelp => b == App { show_help: !a.show_help, ..a } && en == eo,
        Action::FocusSidebar => b == App {
            focus: Focus::Sidebar,
            chat: ChatState { chat_focus: ChatFocus::Input, ..a.chat },
            ..a
        } && en == eo,
        Action::FocusMainPanel => b == App { focus: Focus::MainPanel, ..a } && en == eo,
        Action::NavigateUp => b == navigated(a, false) && en == eo,
        Action::NavigateDown => b == navigated(a, true) && en == eo,
        Action::SelectSection => select_section_post(a, b, eo, en),
        Action::JumpToSection(s) => jump_post(a, b, eo, en, s),
        Action::SendMessage => send_post(a, b, eo, en, input),
        Action::ToggleModelPicker => picker_toggled(a, b) && en == eo,
        Action::ScrollUp => b == scrolled(a, -1i32) && en == eo,
        Action::ScrollDown => b == scrolled(a, 1i32) && en == eo,
        Action::ScrollPageUp => b == scrolled(a, -20i32) && en == eo,
        Action::ScrollPageDown => b == scrolled(a, 20i32) && en == eo,
        Action::ScrollToBottom => b == App {
            chat: ChatState { scroll_offset: 0, auto_scroll: true, ..a.chat },
            ..a
        } && en == eo,
        Action::NewChat => {
            &&& b.chat.messages@.len() == 0
            &&& b.chat.streaming_buffer@.len() == 0
            &&& b == App {
                chat: ChatState {
                    messages: b.chat.messages,
                    streaming_buffer: b.chat.streaming_buffer,
                    scroll_offset: 0,
                    last_stats: None,
                    auto_scroll: true,
                    ..a.chat
                },
                ..a
            }
            &&& en == eo
        },
        Action::FocusChatInput => b == App {
            focus: Focus::MainPanel,
            chat: ChatState { chat_focus: ChatFocus::Input, ..a.chat },
            ..a
        } && en == eo,
        Action::FocusChatMessages => b == App {
            chat: ChatState { chat_focus: ChatFocus::Messages, ..a.chat },
            ..a
        } && en == eo,
        Action::RefreshModels => fetch_models_post(a, b, eo, en),
        Action::ShowModelDetail => show_detail_post(a, b, eo, en),
        Action::DeleteModel => confirm_delete_post(a, b, eo, en),
        Action::PullModel => open_pull_post(a, b) && en == eo,
        Action::CopyModel => open_copy_post(a, b, eo, en),
        Action::RefreshRunning => fetch_running_post(a, b, eo, en),
        Action::UnloadModel => confirm_unload_post(a, b, eo, en),
        Action::ConfigAddProfile => add_profile_input_post(a, b) && en == eo,
        Action::ConfigRemoveProfile => remove_profile_post(a, b, eo, en),
        Action::ConfigSwitchProfile => switch_profile_post(a, b, eo, en),
        Action::ConfigTestConnection => test_profile_post(a, b, eo, en),
        Action::CloseOverlay => b == App { model_detail: None, confirm: None, ..a } && en == eo,
        _ => b == a && en == eo,
    }
}

/// What a key press does. The help overlay, then a confirmation, a text
/// input, a pull, the model details and the model picker take the key in
/// that order when open; otherwise the key's binding in the current input
/// context is carried out.
pub open spec fn key_post(
    a: App,
    b: App,
    eo: Seq<Effect>,
    en: Seq<Effect>,
    key: KeyEvent,
    input: Seq<char>,
    act: Action,
) -> bool {
    if a.show_help {
        &&& act == Action::NoOp
        &&& en == eo
        &&& b == App { show_help: !(key.code == KeyCode::Char('?') || key.code == KeyCode::Esc), ..a }
    } else if a.confirm is Some {
        confirm_key_post(a, b, eo, en, key, act)
    } else if a.text_input is Some {
        text_key_post(a, b, eo, en, key, act)
    } else if a.pull is Some {
        pull_key_post(a, b, key, act) && en == eo
    } else if a.model_detail is Some {
        detail_key_post(a, b, key, act) && en == eo
    } else if a.show_model_picker {
        picker_key_post(a, b, key, act) && en == eo
    } else {
        act == key_action(key, a.input_context()) && action_post(a, b, eo, en, act, input)
    }
}

/// Pressing `?` opens the help and pressing it again closes it, leaving the
/// interface as it was, from any state without an open dialog (outside the
/// chat input, where `?` is typed).
pub proof fn law_help_toggles_back(
    a: App,
    b: App,
    c: App,
    effects: Seq<Seq<Effect>>,
    key: KeyEvent,
    input: Seq<char>,
    acts: (Action, Action),
)
    requires
        effects.len() == 4,
        key.code == KeyCode::Char('?'),
        !a.show_help,
        a.confirm is None,
        a.text_input is None,
        a.pull is None,
        a.model_detail is None,
        !a.show_model_picker,
        a.input_context() != crate::tui::keymap::InputContext::ChatInput,
        key_post(a, b, effects[0], effects[1], key, input, acts.0),
        key_post(b, c, effects[2], effects[3], key, input, acts.1),
    ensures
        b.show_help,
        c == a,
        effects[1] == effects[0],
        effects[3] == effects[2],
{
    crate::tui::keymap::law_help_key(key, a.input_context());
}

/// A new chat forgets the conversation: no message is left, nothing is
/// being received, the view is at the end, and no request is started.
pub proof fn law_new_chat_empties(a: App, b: App, eo: Seq<Effect>, en: Seq<Effect>, input: Seq<char>)
    requires
        action_post(a, b, eo, en, Action::NewChat, input),
    ensures
        b.chat.messages@.len() == 0,
        b.chat.streaming_buffer@.len() == 0,
        b.chat.scroll_offset == 0,
        b.chat.auto_scroll,
        b.chat.last_stats is None,
        b.chat.current_model == a.chat.current_model,
        en == eo,
{
}

/// After a new chat, the next message is sent as a conversation of its own:
/// the request carries that one message and nothing of the old chat.
pub proof fn law_new_chat_then_send(
    a: App,
    b: App,
    c: App,
    e0: Seq<Effect>,
    e1: Seq<Effect>,
    e2: Seq<Effect>,
    keys: Seq<char>,
    text: Seq<char>,
)
    requires
        action_post(a, b, e0, e1, Action::NewChat, keys),
        send_post(b, c, e1, e2, text),
        trim(text).len() > 0,
        a.chat.current_model is Some,
    ensures
        c.chat.messages@.len() == 1,
        c.chat.messages@[0].content@ == trim(text),
        e2[e1.len() as int + 1] matches Effect::SendChat { messages, .. } && messages@.len() == 1
            && messages@[0].content@ == trim(text),
{
    assert(c.chat.messages@.drop_last().len() == 0);
}

impl App {
    /// Carries out an action; `chat_input` is the text of the chat input box.
    pub fn execute_action(&mut self, action: Action, chat_input: &str, effects: &mut Vec<Effect>)
        requires
            old(self).inv(),
        ensures
            keeps_limits(*old(self), *final(self)),
            action_post(*old(self), *final(self), old(effects)@, final(effects)@, action, chat_input@),
    {
        match action {
            Action::Quit => self.should_quit = true,
            Action::ToggleHelp => self.show_help = !self.show_help,
            Action::FocusSidebar => {
                self.focus = Focus::Sidebar;
                self.chat.chat_focus = ChatFocus::Input;
            },
            Action::FocusMainPanel => self.focus = Focus::MainPanel,
            Action::NavigateUp => self.navigate(false),
            Action::NavigateDown => self.navigate(true),
            Action::SelectSection => self.select_sidebar_section(effects),
            Action::JumpToSection(section) => self.jump_to_section(section, effects),
            Action::SendMessage => self.send_chat_message(chat_input, effects),
            Action::ToggleModelPicker => self.toggle_model_picker(),
            Action::ScrollUp => self.scroll_chat(-1),
            Action::ScrollDown => self.scroll_chat(1),
            Action::ScrollPageUp => self.scroll_chat(-20),
            Action::ScrollPageDown => self.scroll_chat(20),
            Action::ScrollToBottom => {
                self.chat.scroll_offset = 0;
                self.chat.auto_scroll = true;
            },
            Action::NewChat => {
                self.chat.messages.clear();
                self.chat.streaming_buffer = String::new();
                self.chat.scroll_offset = 0;
                self.chat.last_stats = None;
                self.chat.auto_scroll = true;
            },
            Action::FocusChatInput => {
                self.focus = Focus::MainPanel;
                self.chat.chat_focus = ChatFocus::Input;
            },
            Action::FocusChatMessages => {
                self.chat.chat_focus = ChatFocus::Messages;
            },
            Action::RefreshModels => self.fetch_models(effects),
            Action::ShowModelDetail => self.show_model_detail(effects),
            Action::DeleteModel => self.confirm_delete_model(effects),
            Action::PullModel => self.open_pull_input(),
            Action::CopyModel => self.open_copy_input(effects),
            Action::RefreshRunning => self.fetch_running(effects),
            Action::UnloadModel => self.confirm_unload_model(effects),
            Action::ConfigAddProfile => self.config_add_profile(),
            Action::ConfigRemoveProfile => self.config_remove_profile(effects),
            Action::ConfigSwitchProfile => self.config_switch_profile(effects),
            Action::ConfigTestConnection => self.config_test_connection(effects),
            Action::CloseOverlay => {
                self.model_detail = None;
                self.confirm = None;
            },
            Action::ConfirmYes | Action::ConfirmNo | Action::PickerConfirm
            | Action::PickerCancel | Action::NoOp => {},
        }
    }

    /// Handles a key press; `chat_input` is the text of the chat input box
    /// (its lines joined by newlines). Returns the action the key stood for.
    pub fn handle_key(&mut self, key: KeyEvent, chat_input: &str, effects: &mut Vec<Effect>) -> (act:
        Action)
        requires
            old(self).inv(),
        ensures
            keeps_limits(*old(self), *final(self)),
            key_post(*old(self), *final(self), old(effects)@, final(effects)@, key, chat_input@, act),
    {
        if self.show_help {
            if key.code == KeyCode::Char('?') || key.code == KeyCode::Esc {
                self.show_help = false;
            }
            return Action::NoOp;
        }
        if self.confirm.is_some() {
            return self.handle_confirm_key(key, effects);
        }
        if self.text_input.is_some() {
            return self.handle_text_input_key(key, effects);
        }
        if self.pull.is_some() {
            return self.handle_pull_overlay_key(key);
        }
        if self.model_detail.is_some() {
            return self.handle_model_detail_key(key);
        }
        if self.show_model_picker {
            return self.handle_model_picker_key(key);
        }
        let context = self.current_input_context();
        let action = map_key_event(key, &context);
        self.execute_action(action, chat_input, effects);
        action
    }
}

} // verus!
