//! What each action does to the interface state: navigation, chat, models,
//! and the opening of dialogs.

use vstd::prelude::*;
use crate::api::{ChatMessage, ModelInfo, copy_messages};
use crate::profiles::Profile;
use crate::text::{concat3, contains, contains_seq, lowercase, to_lowercase, trim, trimmed};
use crate::tui::app::{App, ChatState, ConfigState, ConfirmAction, ConfirmState, Effect, Focus, ModelPickerState, ModelsState, RunningState, Section, TextInputAction, TextInputState, SECTION_COUNT, cyclic_step, next_serial, section_at, section_index, step_index, keeps_limits, max_pos};

verus! {

/// The names of `models`, in order.
pub open spec fn model_names(models: Seq<ModelInfo>) -> Seq<Seq<char>> {
    models.map_values(|m: ModelInfo| m.name@)
}

/// Whether the model picker lists `name` under `filter`: an empty filter
/// keeps every name, another one the names that contain it, compared in
/// lowercase. (A text is empty exactly when its lowercase form is.)
pub open spec fn picker_keeps(filter: Seq<char>, name: Seq<char>) -> bool {
    filter.len() == 0 || contains_seq(lowercase(name), lowercase(filter))
}

/// The names the model picker lists for `filter`, in model order.
pub open spec fn picker_list(models: Seq<ModelInfo>, filter: Seq<char>) -> Seq<Seq<char>> {
    model_names(models).filter(|n: Seq<char>| picker_keeps(filter, n))
}

pub open spec fn string_views(v: Seq<String>) -> Seq<Seq<char>> {
    v.map_values(|s: String| s@)
}

/// The state after moving the selection one step up (`forward` false) or
/// down in the focused list; lists wrap around, empty lists do not move.
pub open spec fn navigated(a: App, forward: bool) -> App {
    match a.focus {
        Focus::Sidebar => App {
            sidebar_selected: Some(cyclic_step(a.sidebar_selected, forward, SECTION_COUNT as nat)),
            ..a
        },
        Focus::MainPanel => match a.active_section {
            Section::Models => if a.models.models@.len() == 0 {
                a
            } else {
                App {
                    models: ModelsState {
                        selected: Some(
                            cyclic_step(a.models.selected, forward, a.models.models@.len()),
                        ),
                        ..a.models
                    },
                    ..a
                }
            },
            Section::Running => if a.running.models@.len() == 0 {
                a
            } else {
                App {
                    running: RunningState {
                        selected: Some(
                            cyclic_step(a.running.selected, forward, a.running.models@.len()),
                        ),
                        ..a.running
                    },
                    ..a
                }
            },
            Section::Config => if a.config_state.profiles@.len() == 0 {
                a
            } else {
                App {
                    config_state: ConfigState {
                        selected: Some(
                            cyclic_step(
                                a.config_state.selected,
                                forward,
                                a.config_state.profiles@.len(),
                            ),
                        ),
                        ..a.config_state
                    },
                    ..a
                }
            },
            _ => a,
        },
    }
}

/// The state after scrolling the chat by `delta` lines toward the start
/// (negative `delta`) or the end; the offset counts lines from the bottom,
/// is computed on 32-bit signed values and never goes below zero.
pub open spec fn scrolled(a: App, delta: i32) -> App {
    let v = (a.chat.scroll_offset as i32).wrapping_sub(delta);
    App {
        chat: ChatState {
            auto_scroll: false,
            scroll_offset: (if v < 0 {
                0
            } else {
                v
            }) as usize,
            ..a.chat
        },
        ..a
    }
}

/// Starting a refresh of the installed models.
pub open spec fn fetch_models_post(a: App, b: App, eo: Seq<Effect>, en: Seq<Effect>) -> bool {
    &&& b == App { models: ModelsState { loading: true, ..a.models }, ..a }
    &&& en == eo.push(Effect::FetchModels)
}

/// Starting a refresh of the loaded models.
pub open spec fn fetch_running_post(a: App, b: App, eo: Seq<Effect>, en: Seq<Effect>) -> bool {
    &&& b == App { running: RunningState { loading: true, ..a.running }, ..a }
    &&& en == eo.push(Effect::FetchRunning)
}

/// Listing the configured profiles again; the first one is selected when
/// nothing was.
pub open spec fn profiles_refreshed(a: App, b: App) -> bool {
    &&& b.config_state.profiles@.map_values(|p: Profile| p@) == a.config.urls@
    &&& b == App {
        config_state: ConfigState {
            profiles: b.config_state.profiles,
            selected: if a.config_state.selected is None && a.config.urls@.len() > 0 {
                Some(0usize)
            } else {
                a.config_state.selected
            },
        },
        ..a
    }
}

/// What switching to section `next` starts: a refresh of the models, of the
/// loaded models, or of the profile list.
pub open spec fn section_switch_post(
    a: App,
    b: App,
    eo: Seq<Effect>,
    en: Seq<Effect>,
    next: Section,
) -> bool {
    match next {
        Section::Models => fetch_models_post(a, b, eo, en),
        Section::Running => fetch_running_post(a, b, eo, en),
        Section::Config => profiles_refreshed(a, b) && en == eo,
        _ => b == a && en == eo,
    }
}

pub open spec fn jump_post(a: App, b: App, eo: Seq<Effect>, en: Seq<Effect>, s: Section) -> bool {
    section_switch_post(
        App {
            active_section: s,
            sidebar_selected: Some(section_index(s)),
            focus: Focus::MainPanel,
            ..a
        },
        b,
        eo,
        en,
        s,
    )
}

pub open spec fn select_section_post(a: App, b: App, eo: Seq<Effect>, en: Seq<Effect>) -> bool {
    match a.sidebar_selected {
        Some(i) => if i < SECTION_COUNT {
            section_switch_post(
                App { active_section: section_at(i).unwrap(), focus: Focus::MainPanel, ..a },
                b,
                eo,
                en,
                section_at(i).unwrap(),
            )
        } else {
            b == a && en == eo
        },
        None => b == a && en == eo,
    }
}

/// Opening or closing the model picker; opening clears the filter, lists
/// every model and selects the first.
pub open spec fn picker_toggled(a: App, b: App) -> bool {
    if a.show_model_picker {
        b == App { show_model_picker: false, ..a }
    } else {
        &&& b.model_picker.filter@.len() == 0
        &&& string_views(b.model_picker.filtered_models@) == picker_list(a.models.models@, seq![])
        &&& b == App {
            show_model_picker: true,
            model_picker: ModelPickerState {
                filter: b.model_picker.filter,
                filtered_models: b.model_picker.filtered_models,
                selected: Some(0usize),
            },
            ..a
        }
    }
}

proof fn lemma_filter_keeps_all(s: Seq<Seq<char>>, p: spec_fn(Seq<char>) -> bool)
    requires
        forall|i: int| 0 <= i < s.len() ==> p(#[trigger] s[i]),
    ensures
        s.filter(p) == s,
    decreases s.len(),
{
    reveal(Seq::filter);
    if s.len() > 0 {
        lemma_filter_keeps_all(s.drop_last(), p);
        assert(s.drop_last().push(s.last()) =~= s);
    }
}

proof fn lemma_filter_within(s: Seq<Seq<char>>, p: spec_fn(Seq<char>) -> bool, x: Seq<char>)
    requires
        s.filter(p).contains(x),
    ensures
        s.contains(x),
        p(x),
    decreases s.len(),
{
    reveal(Seq::filter);
    if s.len() > 0 {
        let prev = s.drop_last().filter(p);
        if prev.contains(x) {
            lemma_filter_within(s.drop_last(), p, x);
            let j = choose|j: int| 0 <= j < s.drop_last().len() && s.drop_last()[j] == x;
            assert(s[j] == x);
        } else {
            let k = choose|k: int| 0 <= k < s.filter(p).len() && s.filter(p)[k] == x;
            assert(p(s.last()) && s.filter(p) == prev.push(s.last()));
            assert(k == prev.len());
            assert(s[s.len() - 1] == x);
        }
    }
}

/// With no filter typed, the model picker lists every installed model, in
/// the order the server gave them.
pub proof fn law_picker_lists_all_without_filter(models: Seq<ModelInfo>)
    ensures
        picker_list(models, seq![]) == model_names(models),
{
    lemma_filter_keeps_all(model_names(models), |n: Seq<char>| picker_keeps(seq![], n));
}

/// With a filter typed, the model picker lists exactly the installed model
/// names that contain the filter, ignoring case.
pub proof fn law_picker_filter(models: Seq<ModelInfo>, filter: Seq<char>, name: Seq<char>)
    requires
        filter.len() > 0,
    ensures
        picker_list(models, filter).contains(name) <==> (model_names(models).contains(name)
            && contains_seq(lowercase(name), lowercase(filter))),
{
    let names = model_names(models);
    let p = |n: Seq<char>| picker_keeps(filter, n);
    if picker_list(models, filter).contains(name) {
        lemma_filter_within(names, p, name);
    }
    if names.contains(name) && contains_seq(lowercase(name), lowercase(filter)) {
        names.filter_lemma(p);
        let j = choose|j: int| 0 <= j < names.len() && names[j] == name;
        assert(p(names[j]));
        assert(names.filter(p).contains(names[j]));
    }
}

/// Opening the model picker clears its filter, lists every installed model
/// in order and selects the first.
pub proof fn law_picker_opens_with_all(a: App, b: App)
    requires
        !a.show_model_picker,
        picker_toggled(a, b),
    ensures
        b.show_model_picker,
        b.model_picker.filter@.len() == 0,
        string_views(b.model_picker.filtered_models@) == model_names(a.models.models@),
        b.model_picker.selected == Some(0usize),
{
    law_picker_lists_all_without_filter(a.models.models@);
}

/// The name of the selected installed model, if the selection is on one.
pub open spec fn selected_model(a: App) -> Option<String> {
    match a.models.selected {
        Some(i) => if i < a.models.models@.len() {
            Some(a.models.models@[i as int].name)
        } else {
            None
        },
        None => None,
    }
}

/// The name of the selected loaded model, if the selection is on one.
pub open spec fn selected_running(a: App) -> Option<String> {
    match a.running.selected {
        Some(i) => if i < a.running.models@.len() {
            Some(a.running.models@[i as int].name)
        } else {
            None
        },
        None => None,
    }
}

/// The selected profile, if the selection is on one.
pub open spec fn selected_profile(a: App) -> Option<Profile> {
    match a.config_state.selected {
        Some(i) => if i < a.config_state.profiles@.len() {
            Some(a.config_state.profiles@[i as int])
        } else {
            None
        },
        None => None,
    }
}

/// Only a status message changed, to `msg`.
pub open spec fn status_post(a: App, b: App, msg: Seq<char>) -> bool {
    &&& b.status_message matches Some(m) && m@ == msg
    &&& b == App { status_message: b.status_message, status_serial: next_serial(a.status_serial), ..a }
}

/// Only the confirmation dialog changed: it asks `title` / `message` and
/// does `on` when confirmed.
pub open spec fn confirm_post(
    a: App,
    b: App,
    title: Seq<char>,
    message: Seq<char>,
    on: ConfirmAction,
) -> bool {
    &&& b.confirm matches Some(c) && c.title@ == title && c.message@ == message && c.on_confirm
        == on
    &&& b == App { confirm: b.confirm, ..a }
}

/// Only the text input dialog changed: it is open, empty, shows `title` /
/// `prompt`, and submits to `on`.
pub open spec fn text_input_post(
    a: App,
    b: App,
    title: Seq<char>,
    prompt: Seq<char>,
    on: TextInputAction,
) -> bool {
    &&& b.text_input matches Some(t) && t.title@ == title && t.prompt@ == prompt && t.input@.len()
        == 0 && t.on_submit == on
    &&& b == App { text_input: b.text_input, ..a }
}

pub open spec fn no_model_selected(a: App, b: App, eo: Seq<Effect>, en: Seq<Effect>) -> bool {
    status_post(a, b, "No model selected"@) && en == eo
}

pub open spec fn no_profile_selected(a: App, b: App, eo: Seq<Effect>, en: Seq<Effect>) -> bool {
    status_post(a, b, "No profile selected"@) && en == eo
}

/// Asking the server for the selected model's details.
pub open spec fn show_detail_post(a: App, b: App, eo: Seq<Effect>, en: Seq<Effect>) -> bool {
    match selected_model(a) {
        Some(n) => {
            &&& en == eo.push(Effect::LoadModelDetail { name: n })
            &&& status_post(a, b, "Loading details for "@ + n@ + "..."@)
        },
        None => no_model_selected(a, b, eo, en),
    }
}

pub open spec fn confirm_delete_post(a: App, b: App, eo: Seq<Effect>, en: Seq<Effect>) -> bool {
    match selected_model(a) {
        Some(n) => en == eo && confirm_post(
            a,
            b,
            "Delete Model"@,
            "Delete model '"@ + n@ + "'? This cannot be undone. (y/n)"@,
            ConfirmAction::DeleteModel(n),
        ),
        None => no_model_selected(a, b, eo, en),
    }
}

pub open spec fn confirm_unload_post(a: App, b: App, eo: Seq<Effect>, en: Seq<Effect>) -> bool {
    match selected_running(a) {
        Some(n) => en == eo && confirm_post(
            a,
            b,
            "Unload Model"@,
            "Unload '"@ + n@ + "' from memory? It can be loaded again later. (y/n)"@,
            ConfirmAction::UnloadModel(n),
        ),
        None => no_model_selected(a, b, eo, en),
    }
}

pub open spec fn open_pull_post(a: App, b: App) -> bool {
    text_input_post(
        a,
        b,
        "Pull Model"@,
        "Enter model name (e.g. llama3.2, mistral:7b):"@,
        TextInputAction::PullModel,
    )
}

pub open spec fn open_copy_post(a: App, b: App, eo: Seq<Effect>, en: Seq<Effect>) -> bool {
    match selected_model(a) {
        Some(n) => en == eo && text_input_post(
            a,
            b,
            "Copy Model"@,
            "New name for copy of '"@ + n@ + "':"@,
            TextInputAction::CopyModel(n),
        ),
        None => no_model_selected(a, b, eo, en),
    }
}

pub open spec fn add_profile_input_post(a: App, b: App) -> bool {
    text_input_post(a, b, "Add Profile"@, "Profile name:"@, TextInputAction::ConfigAddName)
}

/// Sending the chat input: nothing when it is blank; a status message when
/// no model is chosen; otherwise the trimmed input joins the conversation as
/// a user message, the input box is emptied and the conversation is sent.
pub open spec fn send_post(
    a: App,
    b: App,
    eo: Seq<Effect>,
    en: Seq<Effect>,
    input: Seq<char>,
) -> bool {
    if trim(input).len() == 0 {
        b == a && en == eo
    } else {
        match a.chat.current_model {
            None => status_post(a, b, "No model selected. Press Alt+M to pick one."@) && en == eo,
            Some(model) => {
                let msgs = b.chat.messages@;
                &&& msgs.len() == a.chat.messages@.len() + 1
                &&& msgs.drop_last() == a.chat.messages@
                &&& msgs.last().role@ == "user"@
                &&& msgs.last().content@ == trim(input)
                &&& b.chat.streaming_buffer@.len() == 0
                &&& b == App {
                    chat: ChatState {
                        messages: b.chat.messages,
                        is_streaming: true,
                        streaming_buffer: b.chat.streaming_buffer,
                        auto_scroll: true,
                        ..a.chat
                    },
                    ..a
                }
                &&& en.len() == eo.len() + 2
                &&& en.subrange(0, eo.len() as int) == eo
                &&& en[eo.len() as int] == Effect::ClearChatInput
                &&& en[eo.len() as int + 1] matches Effect::SendChat { model: m, messages } && m == model
                    && messages@ == msgs
            },
        }
    }
}

impl App {
    pub fn fetch_models(&mut self, effects: &mut Vec<Effect>)
        ensures
            keeps_limits(*old(self), *final(self)),
            fetch_models_post(*old(self), *final(self), old(effects)@, final(effects)@),
    {
        self.models.loading = true;
        effects.push(Effect::FetchModels);
    }

    pub fn fetch_running(&mut self, effects: &mut Vec<Effect>)
        ensures
            keeps_limits(*old(self), *final(self)),
            fetch_running_post(*old(self), *final(self), old(effects)@, final(effects)@),
    {
        self.running.loading = true;
        effects.push(Effect::FetchRunning);
    }

    /// Lists the configured profiles again.
    pub fn refresh_config_profiles(&mut self)
        ensures
            keeps_limits(*old(self), *final(self)),
            profiles_refreshed(*old(self), *final(self)),
    {
        let n = self.config.urls.len();
        let mut profiles: Vec<Profile> = Vec::new();
        let mut i: usize = 0;
        while i < n
            invariant
                n == self.config.urls@.len(),
                i <= n,
                profiles@.map_values(|p: Profile| p@) == self.config.urls@.subrange(0, i as int),
            decreases n - i,
        {
            let ghost before = profiles@.map_values(|p: Profile| p@);
            let p = Profile {
                name: self.config.urls.name_at(i).clone(),
                url: self.config.urls.url_at(i).clone(),
            };
            profiles.push(p);
            assert(profiles@.map_values(|p: Profile| p@) =~= before.push(self.config.urls@[i as int]));
            assert(self.config.urls@.subrange(0, i + 1) =~= self.config.urls@.subrange(0, i as int).push(
                self.config.urls@[i as int],
            ));
            i += 1;
        }
        assert(self.config.urls@.subrange(0, n as int) =~= self.config.urls@);
        self.config_state.profiles = profiles;
        if self.config_state.selected.is_none() && n > 0 {
            self.config_state.selected = Some(0);
        }
    }

    pub fn on_section_switch(&mut self, next: Section, effects: &mut Vec<Effect>)
        ensures
            keeps_limits(*old(self), *final(self)),
            section_switch_post(*old(self), *final(self), old(effects)@, final(effects)@, next),
    {
        match next {
            Section::Models => self.fetch_models(effects),
            Section::Running => self.fetch_running(effects),
            Section::Config => self.refresh_config_profiles(),
            _ => {},
        }
    }

    pub fn navigate(&mut self, forward: bool)
        requires
            old(self).inv(),
        ensures
            keeps_limits(*old(self), *final(self)),
            *final(self) == navigated(*old(self), forward),
    {
        match self.focus {
            Focus::Sidebar => {
                self.sidebar_selected = Some(step_index(self.sidebar_selected, forward, 6));
            },
            Focus::MainPanel => match self.active_section {
                Section::Models => {
                    let len = self.models.models.len();
                    if len > 0 {
                        self.models.selected = Some(
                            step_index(self.models.selected, forward, len),
                        );
                    }
                },
                Section::Running => {
                    let len = self.running.models.len();
                    if len > 0 {
                        self.running.selected = Some(
                            step_index(self.running.selected, forward, len),
                        );
                    }
                },
                Section::Config => {
                    let len = self.config_state.profiles.len();
                    if len > 0 {
                        self.config_state.selected = Some(
                            step_index(self.config_state.selected, forward, len),
                        );
                    }
                },
                _ => {},
            },
        }
    }

    pub fn select_sidebar_section(&mut self, effects: &mut Vec<Effect>)
        ensures
            keeps_limits(*old(self), *final(self)),
            select_section_post(*old(self), *final(self), old(effects)@, final(effects)@),
    {
        if let Some(idx) = self.sidebar_selected {
            if idx < SECTION_COUNT {
                let next = Section::at(idx).unwrap();
                self.active_section = next;
                self.focus = Focus::MainPanel;
                self.on_section_switch(next, effects);
            }
        }
    }

    pub fn jump_to_section(&mut self, section: Section, effects: &mut Vec<Effect>)
        ensures
            keeps_limits(*old(self), *final(self)),
            jump_post(*old(self), *final(self), old(effects)@, final(effects)@, section),
    {
        self.active_section = section;
        self.sidebar_selected = Some(section.index());
        self.focus = Focus::MainPanel;
        self.on_section_switch(section, effects);
    }

    pub fn scroll_chat(&mut self, delta: i32)
        ensures
            keeps_limits(*old(self), *final(self)),
            *final(self) == scrolled(*old(self), delta),
    {
        self.chat.auto_scroll = false;
        let current = self.chat.scroll_offset as i32;
        let v = current.wrapping_sub(delta);
        self.chat.scroll_offset = (if v < 0 {
            0
        } else {
            v
        }) as usize;
    }

    /// Lists again the models that the picker's filter keeps.
    pub fn update_model_picker_filter(&mut self)
        ensures
            keeps_limits(*old(self), *final(self)),
            string_views(final(self).model_picker.filtered_models@) == picker_list(
                old(self).models.models@,
                old(self).model_picker.filter@,
            ),
            *final(self) == (App {
                model_picker: ModelPickerState {
                    filtered_models: final(self).model_picker.filtered_models,
                    ..old(self).model_picker
                },
                ..*old(self)
            }),
    {
        let keep_all = self.model_picker.filter.as_str().is_empty();
        let filter = to_lowercase(self.model_picker.filter.as_str());
        let ghost f = self.model_picker.filter@;
        let ghost names = model_names(self.models.models@);
        let ghost keep = |n: Seq<char>| picker_keeps(f, n);
        let mut out: Vec<String> = Vec::new();
        let n = self.models.models.len();
        let mut i: usize = 0;
        while i < n
            invariant
                n == self.models.models@.len(),
                i <= n,
                filter@ == lowercase(f),
                keep_all == (f.len() == 0),
                names == model_names(self.models.models@),
                keep == (|n: Seq<char>| picker_keeps(f, n)),
                string_views(out@) == names.subrange(0, i as int).filter(keep),
            decreases n - i,
        {
            let name = &self.models.models[i].name;
            let lower = to_lowercase(name.as_str());
            let kept = keep_all || contains(lower.as_str(), filter.as_str());
            proof {
                reveal_with_fuel(Seq::<_>::filter, 1);
                assert(names.subrange(0, i + 1).drop_last() =~= names.subrange(0, i as int));
                assert(names[i as int] == name@);
            }
            if kept {
                let ghost before = string_views(out@);
                out.push(name.clone());
                assert(string_views(out@) =~= before.push(name@));
            }
            i += 1;
        }
        assert(names.subrange(0, n as int) =~= names);
        self.model_picker.filtered_models = out;
    }

    pub fn toggle_model_picker(&mut self)
        ensures
            keeps_limits(*old(self), *final(self)),
            picker_toggled(*old(self), *final(self)),
    {
        self.show_model_picker = !self.show_model_picker;
        if self.show_model_picker {
            self.model_picker.filter = String::new();
            self.update_model_picker_filter();
            self.model_picker.selected = Some(0);
        }
    }

    /// The name of the selected installed model.
    pub fn selected_model_name(&self) -> (r: Option<String>)
        ensures
            r == selected_model(*self),
    {
        match self.models.selected {
            Some(idx) => if idx < self.models.models.len() {
                Some(self.models.models[idx].name.clone())
            } else {
                None
            },
            None => None,
        }
    }

    pub fn show_model_detail(&mut self, effects: &mut Vec<Effect>)
        ensures
            keeps_limits(*old(self), *final(self)),
            show_detail_post(*old(self), *final(self), old(effects)@, final(effects)@),
    {
        let Some(name) = self.selected_model_name() else {
            self.set_status("No model selected".to_string());
            return;
        };
        let msg = concat3("Loading details for ", name.as_str(), "...");
        effects.push(Effect::LoadModelDetail { name });
        self.set_status(msg);
    }

    pub fn confirm_delete_model(&mut self, effects: &mut Vec<Effect>)
        ensures
            keeps_limits(*old(self), *final(self)),
            confirm_delete_post(*old(self), *final(self), old(effects)@, final(effects)@),
    {
        let Some(name) = self.selected_model_name() else {
            self.set_status("No model selected".to_string());
            return;
        };
        self.confirm = Some(
            ConfirmState {
                title: "Delete Model".to_string(),
                message: concat3(
                    "Delete model '",
                    name.as_str(),
                    "'? This cannot be undone. (y/n)",
                ),
                on_confirm: ConfirmAction::DeleteModel(name),
            },
        );
    }

    pub fn confirm_unload_model(&mut self, effects: &mut Vec<Effect>)
        ensures
            keeps_limits(*old(self), *final(self)),
            confirm_unload_post(*old(self), *final(self), old(effects)@, final(effects)@),
    {
        let name = match self.running.selected {
            Some(idx) => if idx < self.running.models.len() {
                Some(self.running.models[idx].name.clone())
            } else {
                None
            },
            None => None,
        };
        let Some(name) = name else {
            self.set_status("No model selected".to_string());
            return;
        };
        self.confirm = Some(
            ConfirmState {
                title: "Unload Model".to_string(),
                message: concat3(
                    "Unload '",
                    name.as_str(),
                    "' from memory? It can be loaded again later. (y/n)",
                ),
                on_confirm: ConfirmAction::UnloadModel(name),
            },
        );
    }

    pub fn open_pull_input(&mut self)
        ensures
            keeps_limits(*old(self), *final(self)),
            open_pull_post(*old(self), *final(self)),
    {
        self.text_input = Some(
            TextInputState {
                title: "Pull Model".to_string(),
                prompt: "Enter model name (e.g. llama3.2, mistral:7b):".to_string(),
                input: String::new(),
                on_submit: TextInputAction::PullModel,
            },
        );
    }

    pub fn open_copy_input(&mut self, effects: &mut Vec<Effect>)
        ensures
            keeps_limits(*old(self), *final(self)),
            open_copy_post(*old(self), *final(self), old(effects)@, final(effects)@),
    {
        let Some(name) = self.selected_model_name() else {
            self.set_status("No model selected".to_string());
            return;
        };
        self.text_input = Some(
            TextInputState {
                title: "Copy Model".to_string(),
                prompt: concat3("New name for copy of '", name.as_str(), "':"),
                input: String::new(),
                on_submit: TextInputAction::CopyModel(name),
            },
        );
    }

    pub fn config_add_profile(&mut self)
        ensures
            keeps_limits(*old(self), *final(self)),
            add_profile_input_post(*old(self), *final(self)),
    {
        self.text_input = Some(
            TextInputState {
                title: "Add Profile".to_string(),
                prompt: "Profile name:".to_string(),
                input: String::new(),
                on_submit: TextInputAction::ConfigAddName,
            },
        );
    }

    /// Sends the chat input (the lines of the input box joined by newlines).
    pub fn send_chat_message(&mut self, chat_input: &str, effects: &mut Vec<Effect>)
        ensures
            keeps_limits(*old(self), *final(self)),
            send_post(*old(self), *final(self), old(effects)@, final(effects)@, chat_input@),
    {
        let input = trimmed(chat_input);
        if input.as_str().is_empty() {
            return;
        }
        let model = match &self.chat.current_model {
            Some(m) => m.clone(),
            None => {
                self.set_status("No model selected. Press Alt+M to pick one.".to_string());
                return;
            },
        };
        let ghost before = self.chat.messages@;
        let ghost eo = effects@;
        self.chat.messages.push(ChatMessage { role: "user".to_string(), content: input });
        effects.push(Effect::ClearChatInput);
        self.chat.is_streaming = true;
        self.chat.streaming_buffer = String::new();
        self.chat.auto_scroll = true;
        let messages = copy_messages(&self.chat.messages);
        effects.push(Effect::SendChat { model, messages });
        assert(self.chat.messages@.drop_last() =~= before);
        assert(effects@.subrange(0, eo.len() as int) =~= eo);
        assert(effects@[eo.len() as int] == Effect::ClearChatInput);
    }
}

} // verus!
