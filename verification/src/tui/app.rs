//! The state of the interactive interface and the state machine over it.
//!
//! Every key press and every server reply goes through a method of `App`,
//! which updates the state and lists, as `Effect`s, the requests that the
//! caller must start (fetching models, sending a chat, saving the
//! configuration, ...). The replies come back as `ApiEvent`s.

use vstd::prelude::*;
use crate::api::{ChatMessage, ModelInfo, RunningModel, ShowDetails};
use crate::config::Config;
use crate::profiles::Profile;
use crate::tui::keymap::{CONTROL, InputContext, KeyCode, KeyEvent, has_modifier, holds};

verus! {

#[derive(Debug, Clone, Copy, PartialEq, Eq, Structural)]
pub enum Section {
    Chat,
    Models,
    Running,
    Library,
    Benchmarks,
    Config,
}

/// The sidebar position of each section.
pub open spec fn section_index(s: Section) -> usize {
    match s {
        Section::Chat => 0,
        Section::Models => 1,
        Section::Running => 2,
        Section::Library => 3,
        Section::Benchmarks => 4,
        Section::Config => 5,
    }
}

/// The section at a sidebar position.
pub open spec fn section_at(i: usize) -> Option<Section> {
    if i == 0 {
        Some(Section::Chat)
    } else if i == 1 {
        Some(Section::Models)
    } else if i == 2 {
        Some(Section::Running)
    } else if i == 3 {
        Some(Section::Library)
    } else if i == 4 {
        Some(Section::Benchmarks)
    } else if i == 5 {
        Some(Section::Config)
    } else {
        None
    }
}

pub open spec fn section_label(s: Section) -> Seq<char> {
    match s {
        Section::Chat => "Chat"@,
        Section::Models => "Models"@,
        Section::Running => "Running"@,
        Section::Library => "Library"@,
        Section::Benchmarks => "Benchmarks"@,
        Section::Config => "Config"@,
    }
}

/// The number of sections.
pub const SECTION_COUNT: usize = 6;

impl Section {
    pub fn label(&self) -> (s: &'static str)
        ensures
            s@ == section_label(*self),
    {
        match self {
            Section::Chat => "Chat",
            Section::Models => "Models",
            Section::Running => "Running",
            Section::Library => "Library",
            Section::Benchmarks => "Benchmarks",
            Section::Config => "Config",
        }
    }

    pub fn index(&self) -> (i: usize)
        ensures
            i == section_index(*self),
    {
        match self {
            Section::Chat => 0,
            Section::Models => 1,
            Section::Running => 2,
            Section::Library => 3,
            Section::Benchmarks => 4,
            Section::Config => 5,
        }
    }

    /// The section at sidebar position `i`, if there is one.
    pub fn at(i: usize) -> (s: Option<Section>)
        ensures
            s == section_at(i),
    {
        if i == 0 {
            Some(Section::Chat)
        } else if i == 1 {
            Some(Section::Models)
        } else if i == 2 {
            Some(Section::Running)
        } else if i == 3 {
            Some(Section::Library)
        } else if i == 4 {
            Some(Section::Benchmarks)
        } else if i == 5 {
            Some(Section::Config)
        } else {
            None
        }
    }
}

pub proof fn lemma_section_index_at(s: Section)
    ensures
        section_at(section_index(s)) == Some(s),
        section_index(s) < SECTION_COUNT,
{
}

#[derive(Debug, Clone, Copy, PartialEq, Eq, Structural)]
pub enum Focus {
    Sidebar,
    MainPanel,
}

#[derive(Debug, Clone, Copy, PartialEq, Eq, Structural)]
pub enum ChatFocus {
    Input,
    Messages,
}

#[derive(Debug, Clone, Copy, PartialEq, Eq, Structural)]
pub struct ChatStats {
    pub eval_count: u64,
    pub eval_duration: u64,
    pub total_duration: u64,
}

pub struct ChatState {
    pub messages: Vec<ChatMessage>,
    pub current_model: Option<String>,
    pub scroll_offset: usize,
    pub is_streaming: bool,
    pub streaming_buffer: String,
    pub last_stats: Option<ChatStats>,
    pub auto_scroll: bool,
    pub chat_focus: ChatFocus,
}

pub struct ModelsState {
    pub models: Vec<ModelInfo>,
    pub selected: Option<usize>,
    pub loading: bool,
}

pub struct RunningState {
    pub models: Vec<RunningModel>,
    pub selected: Option<usize>,
    pub loading: bool,
}

pub struct ConfigState {
    /// The profiles as last listed, in order.
    pub profiles: Vec<Profile>,
    pub selected: Option<usize>,
}

pub struct ModelPickerState {
    pub filter: String,
    pub filtered_models: Vec<String>,
    pub selected: Option<usize>,
}

/// The model detail overlay.
pub struct ModelDetailState {
    pub name: String,
    pub response: ShowDetails,
    pub scroll_offset: u16,
}

/// A confirmation dialog.
pub struct ConfirmState {
    pub title: String,
    pub message: String,
    pub on_confirm: ConfirmAction,
}

pub enum ConfirmAction {
    DeleteModel(String),
    UnloadModel(String),
    RemoveProfile(String),
}

/// A text input dialog.
pub struct TextInputState {
    pub title: String,
    pub prompt: String,
    pub input: String,
    pub on_submit: TextInputAction,
}

pub enum TextInputAction {
    PullModel,
    CopyModel(String),
    ConfigAddName,
    /// The profile name is known; the URL is being asked for.
    ConfigAddUrl(String),
}

pub struct PullLayerProgress {
    pub total: u64,
    pub completed: u64,
}

/// The progress of one layer of a pull, under its digest.
pub struct PullLayer {
    pub digest: String,
    pub progress: PullLayerProgress,
}

/// An active pull. The layers are listed in the order in which they first
/// appeared, at most once per digest.
pub struct PullState {
    pub model_name: String,
    pub status: String,
    pub layers: Vec<PullLayer>,
    pub is_complete: bool,
}

/// What must happen after the configuration has been saved.
pub enum SaveFollowUp {
    ProfileAdded { name: String },
    ProfileRemoved { name: String },
    ProfileSwitched { name: String, url: String },
}

/// A request the caller must start on behalf of the interface.
pub enum Effect {
    FetchModels,
    FetchRunning,
    TestConnection,
    LoadModelDetail { name: String },
    DeleteModel { name: String },
    UnloadModel { name: String },
    CopyModel { source: String, destination: String },
    PullModel { name: String },
    /// Stream a chat reply for this conversation.
    SendChat { model: String, messages: Vec<ChatMessage> },
    /// Empty the chat input box.
    ClearChatInput,
    /// Save the configuration, then call `App::after_config_save`.
    SaveConfig { then: SaveFollowUp },
    /// Talk to the server at this URL from now on.
    Reconnect { url: String },
    /// Test whether the server of a profile answers.
    TestProfile { name: String, url: String },
}

pub struct App {
    pub config: Config,
    /// The URL of the server the interface talks to.
    pub server_url: String,
    pub should_quit: bool,
    pub active_section: Section,
    pub sidebar_selected: Option<usize>,
    pub focus: Focus,
    pub show_help: bool,
    pub show_model_picker: bool,
    pub model_picker: ModelPickerState,
    pub model_detail: Option<ModelDetailState>,
    pub confirm: Option<ConfirmState>,
    pub text_input: Option<TextInputState>,
    pub pull: Option<PullState>,
    pub chat: ChatState,
    pub models: ModelsState,
    pub running: RunningState,
    pub config_state: ConfigState,
    pub status_message: Option<String>,
    /// Counts the status messages shown, so that the caller can time each one.
    pub status_serial: u64,
    pub connected: bool,
    pub tick_count: u64,
}

/// The largest list length and index that the interface's arithmetic on
/// 32-bit signed positions handles.
pub open spec fn max_pos() -> int {
    0x7fff_ffff
}

/// A change from `a` to `b` keeps the limits of the interface, provided that
/// the configuration names no more profiles than positions can number.
pub open spec fn keeps_limits(a: App, b: App) -> bool {
    a.inv() && a.config.urls@.len() <= max_pos() ==> b.inv()
}

pub open spec fn sel_ok(s: Option<usize>) -> bool {
    match s {
        Some(i) => i < max_pos(),
        None => true,
    }
}

pub open spec fn next_serial(n: u64) -> u64 {
    if n == u64::MAX {
        0
    } else {
        (n + 1) as u64
    }
}

/// The position one step away from `cur` (or from 0 when nothing is
/// selected) in a cyclic list of `len` entries.
pub open spec fn cyclic_step(cur: Option<usize>, forward: bool, len: nat) -> usize {
    let c: int = match cur {
        Some(i) => i as int,
        None => 0,
    };
    let d: int = if forward {
        1
    } else {
        -1
    };
    ((c + d) % (len as int)) as usize
}

/// Moving through a non-empty list always lands on one of its entries.
pub proof fn law_step_in_range(cur: Option<usize>, forward: bool, len: nat)
    requires
        len > 0,
    ensures
        cyclic_step(cur, forward, len) < len,
{
}

/// Moving one step down and then one step up (or up, then down) returns to
/// the entry where the move started, wrapping around at either end.
pub proof fn law_step_back_undoes(i: usize, forward: bool, len: nat)
    requires
        i < len <= usize::MAX,
    ensures
        cyclic_step(Some(cyclic_step(Some(i), forward, len)), !forward, len) == i,
{
    let j = cyclic_step(Some(i), forward, len);
    if forward {
        if i + 1 < len {
            assert((i + 1) % (len as int) == i + 1) by (nonlinear_arith)
                requires
                    0 <= i + 1 < len,
            ;
            assert(j == i + 1);
            assert((j - 1) % (len as int) == i) by (nonlinear_arith)
                requires
                    j == i + 1,
                    0 <= i < len,
            ;
        } else {
            assert((i + 1) % (len as int) == 0) by (nonlinear_arith)
                requires
                    i + 1 == len,
                    len > 0,
            ;
            assert(j == 0);
            assert((0 - 1) % (len as int) == len - 1) by (nonlinear_arith)
                requires
                    len > 0,
            ;
        }
    } else {
        if i > 0 {
            assert((i - 1) % (len as int) == i - 1) by (nonlinear_arith)
                requires
                    0 <= i - 1 < len,
            ;
            assert(j == i - 1);
            assert((j + 1) % (len as int) == i) by (nonlinear_arith)
                requires
                    j == i - 1,
                    0 < i < len,
            ;
        } else {
            assert((0 - 1) % (len as int) == len - 1) by (nonlinear_arith)
                requires
                    len > 0,
            ;
            assert(j == len - 1);
            assert((j + 1) % (len as int) == 0) by (nonlinear_arith)
                requires
                    j == len - 1,
                    len > 0,
            ;
        }
    }
}

pub fn step_index(cur: Option<usize>, forward: bool, len: usize) -> (r: usize)
    requires
        0 < len <= max_pos(),
        sel_ok(cur),
    ensures
        r == cyclic_step(cur, forward, len as nat),
        r < len,
{
    let c: usize = match cur {
        Some(i) => i,
        None => 0,
    };
    if forward {
        (c + 1) % len
    } else if c == 0 {
        assert((-1int) % (len as int) == len - 1) by {
            vstd::arithmetic::div_mod::lemma_fundamental_div_mod_converse_mod(
                -1,
                len as int,
                -1,
                len - 1,
            );
        }
        len - 1
    } else {
        (c - 1) % len
    }
}

impl App {
    /// The limits that the position arithmetic of the interface relies on.
    pub open spec fn inv(&self) -> bool {
        &&& self.models.models@.len() <= max_pos()
        &&& self.running.models@.len() <= max_pos()
        &&& self.config_state.profiles@.len() <= max_pos()
        &&& self.model_picker.filtered_models@.len() <= max_pos()
        &&& sel_ok(self.models.selected)
        &&& sel_ok(self.running.selected)
        &&& sel_ok(self.config_state.selected)
        &&& sel_ok(self.model_picker.selected)
        &&& sel_ok(self.sidebar_selected)
    }

    /// The interface as it starts: on the chat section, main panel focused.
    pub fn new(config: Config, server_url: String) -> (app: App)
        ensures
            app.config == config,
            app.server_url == server_url,
            app.active_section == Section::Chat,
            app.sidebar_selected == Some(0usize),
            app.focus == Focus::MainPanel,
            !app.should_quit,
            !app.show_help,
            !app.show_model_picker,
            app.model_detail is None,
            app.confirm is None,
            app.text_input is None,
            app.pull is None,
            app.chat.messages@.len() == 0,
            app.chat.current_model is None,
            app.chat.auto_scroll,
            app.chat.chat_focus == ChatFocus::Input,
            !app.chat.is_streaming,
            app.chat.scroll_offset == 0,
            app.chat.streaming_buffer@.len() == 0,
            app.chat.last_stats is None,
            app.models.models@.len() == 0,
            app.models.selected is None,
            !app.models.loading,
            app.running.models@.len() == 0,
            app.running.selected is None,
            !app.running.loading,
            app.config_state.profiles@.len() == 0,
            app.config_state.selected is None,
            app.model_picker.filter@.len() == 0,
            app.model_picker.filtered_models@.len() == 0,
            app.model_picker.selected is None,
            app.status_message is None,
            app.status_serial == 0,
            !app.connected,
            app.tick_count == 0,
            app.inv(),
    {
        App {
            config,
            server_url,
            should_quit: false,
            active_section: Section::Chat,
            sidebar_selected: Some(0),
            focus: Focus::MainPanel,
            show_help: false,
            show_model_picker: false,
            model_picker: ModelPickerState {
                filter: String::new(),
                filtered_models: Vec::new(),
                selected: None,
            },
            model_detail: None,
            confirm: None,
            text_input: None,
            pull: None,
            chat: ChatState {
                messages: Vec::new(),
                current_model: None,
                scroll_offset: 0,
                is_streaming: false,
                streaming_buffer: String::new(),
                last_stats: None,
                auto_scroll: true,
                chat_focus: ChatFocus::Input,
            },
            models: ModelsState { models: Vec::new(), selected: None, loading: false },
            running: RunningState { models: Vec::new(), selected: None, loading: false },
            config_state: ConfigState { profiles: Vec::new(), selected: None },
            status_message: None,
            status_serial: 0,
            connected: false,
            tick_count: 0,
        }
    }

    /// Shows a status message.
    pub fn set_status(&mut self, msg: String)
        ensures
            keeps_limits(*old(self), *final(self)),
            *final(self) == (App {
                status_message: Some(msg),
                status_serial: next_serial(old(self).status_serial),
                ..*old(self)
            }),
    {
        self.status_message = Some(msg);
        self.status_serial = if self.status_serial == u64::MAX {
            0
        } else {
            self.status_serial + 1
        };
    }

    /// A timer tick; `status_expired` tells that the status message has been
    /// shown for more than five seconds.
    pub fn on_tick(&mut self, status_expired: bool)
        ensures
            keeps_limits(*old(self), *final(self)),
            *final(self) == (App {
                tick_count: (if old(self).tick_count == u64::MAX {
                    0
                } else {
                    (old(self).tick_count + 1) as u64
                }),
                status_message: if status_expired {
                    None
                } else {
                    old(self).status_message
                },
                ..*old(self)
            }),
    {
        self.tick_count = self.tick_count.wrapping_add(1);
        if status_expired && self.status_message.is_some() {
            self.status_message = None;
        }
    }

    /// Where keyboard input goes in the current state.
    pub open spec fn input_context(&self) -> InputContext {
        match self.focus {
            Focus::Sidebar => InputContext::Sidebar,
            Focus::MainPanel => match self.active_section {
                Section::Chat => if self.chat.is_streaming || self.chat.chat_focus
                    == ChatFocus::Messages {
                    InputContext::ChatMessages
                } else {
                    InputContext::ChatInput
                },
                Section::Models => InputContext::ModelsTable,
                Section::Running => InputContext::RunningTable,
                Section::Config => InputContext::ConfigTable,
                _ => InputContext::Global,
            },
        }
    }

    pub fn current_input_context(&self) -> (c: InputContext)
        ensures
            c == self.input_context(),
    {
        match self.focus {
            Focus::Sidebar => InputContext::Sidebar,
            Focus::MainPanel => match self.active_section {
                Section::Chat => {
                    if self.chat.is_streaming || self.chat.chat_focus == ChatFocus::Messages {
                        InputContext::ChatMessages
                    } else {
                        InputContext::ChatInput
                    }
                },
                Section::Models => InputContext::ModelsTable,
                Section::Running => InputContext::RunningTable,
                Section::Config => InputContext::ConfigTable,
                _ => InputContext::Global,
            },
        }
    }

    /// Whether a key press goes to the chat's text area rather than to the
    /// key bindings: only while typing in the chat with no overlay open, and
    /// not for the keys that send, leave, or open the picker or help.
    pub open spec fn passes_to_textarea(&self, key: KeyEvent) -> bool {
        if self.focus != Focus::MainPanel || self.active_section != Section::Chat
            || self.chat.is_streaming || self.show_help || self.show_model_picker {
            false
        } else {
            match key.code {
                KeyCode::Enter => key.modifiers != 0,
                KeyCode::Esc | KeyCode::Tab => false,
                KeyCode::Char(c) => !((c == 'm' || c == 'c' || c == '?') && has_modifier(
                    key,
                    CONTROL,
                )),
                _ => true,
            }
        }
    }

    pub fn should_pass_to_textarea(&self, key: KeyEvent) -> (b: bool)
        ensures
            b == self.passes_to_textarea(key),
    {
        if self.focus != Focus::MainPanel || self.active_section != Section::Chat
            || self.chat.is_streaming || self.show_help || self.show_model_picker {
            return false;
        }
        match key.code {
            KeyCode::Enter => key.modifiers != 0,
            KeyCode::Esc | KeyCode::Tab => false,
            KeyCode::Char(c) => !((c == 'm' || c == 'c' || c == '?') && holds(key, CONTROL)),
            _ => true,
        }
    }
}

} // verus!
