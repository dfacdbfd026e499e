//! The overlays of the interface (confirmation, text input, pull progress,
//! model details, model picker) and the profile operations they lead to.

use vstd::prelude::*;
use crate::config::{Config, normalize_base_url, opt_view};
use crate::config_cmd::{added_view, is_valid_url, valid_url};
use crate::text::{concat2, concat3, concat5, str_eq, trim, trim_end_char, trimmed, with_char, without_last_char};
use crate::tui::action::Action;
use crate::tui::app::{App, ChatState, ConfirmAction, ConfirmState, Effect, ModelDetailState, ModelPickerState, PullState, SaveFollowUp, TextInputAction, TextInputState, cyclic_step, step_index, keeps_limits, max_pos};
use crate::tui::app_actions::{confirm_post, no_profile_selected, picker_list, profiles_refreshed, selected_profile, status_post, string_views};
use crate::tui::keymap::{CONTROL, KeyCode, KeyEvent, has_modifier, holds};

verus! {

/// The confirmed action is carried out: deleting or unloading a model is
/// requested, removing a profile changes the configuration and saves it.
pub open spec fn confirmed_post(
    a: App,
    b: App,
    eo: Seq<Effect>,
    en: Seq<Effect>,
    action: ConfirmAction,
) -> bool {
    match action {
        ConfirmAction::DeleteModel(n) => {
            &&& en == eo.push(Effect::DeleteModel { name: n })
            &&& status_post(a, b, "Deleting "@ + n@ + "..."@)
        },
        ConfirmAction::UnloadModel(n) => {
            &&& en == eo.push(Effect::UnloadModel { name: n })
            &&& status_post(a, b, "Unloading "@ + n@ + "..."@)
        },
        ConfirmAction::RemoveProfile(n) => {
            &&& b.config.urls.as_map() == a.config.urls.as_map().remove(n@)
            &&& b == App { config: Config { urls: b.config.urls, ..a.config }, ..a }
            &&& en == eo.push(Effect::SaveConfig { then: SaveFollowUp::ProfileRemoved { name: n } })
        },
    }
}

/// A key press in the confirmation dialog: y confirms, n or Esc cancels.
pub open spec fn confirm_key_post(
    a: App,
    b: App,
    eo: Seq<Effect>,
    en: Seq<Effect>,
    key: KeyEvent,
    act: Action,
) -> bool {
    match key.code {
        KeyCode::Char(c) => if c == 'y' || c == 'Y' {
            act == Action::ConfirmYes && confirmed_post(
                App { confirm: None, ..a },
                b,
                eo,
                en,
                a.confirm.unwrap().on_confirm,
            )
        } else if c == 'n' || c == 'N' {
            act == Action::ConfirmNo && b == App { confirm: None, ..a } && en == eo
        } else {
            act == Action::NoOp && b == a && en == eo
        },
        KeyCode::Esc => act == Action::ConfirmNo && b == App { confirm: None, ..a } && en == eo,
        _ => act == Action::NoOp && b == a && en == eo,
    }
}

/// A pull starts: its overlay opens and the pull is requested.
pub open spec fn pull_started(
    a: App,
    b: App,
    eo: Seq<Effect>,
    en: Seq<Effect>,
    name: Seq<char>,
) -> bool {
    &&& b.pull matches Some(p) && p.model_name@ == name && p.status@ == "Starting pull..."@
        && p.layers@.len() == 0 && !p.is_complete
    &&& b == App { pull: b.pull, ..a }
    &&& en.len() == eo.len() + 1 && en.drop_last() == eo
    &&& en.last() matches Effect::PullModel { name: n } && n@ == name
}

/// A copy of `source` under the new name `dest` is requested.
pub open spec fn copy_started(
    a: App,
    b: App,
    eo: Seq<Effect>,
    en: Seq<Effect>,
    source: String,
    dest: Seq<char>,
) -> bool {
    &&& en.len() == eo.len() + 1 && en.drop_last() == eo
    &&& en.last() matches Effect::CopyModel { source: s, destination: d } && s == source && d@
        == dest
    &&& status_post(a, b, "Copying "@ + source@ + " -> "@ + dest + "..."@)
}

/// A profile named `name` with URL `url` is added: refused with a status
/// message when the URL is not http(s); otherwise stored (and made active
/// when none is) and the configuration saved.
pub open spec fn profile_added(
    a: App,
    b: App,
    eo: Seq<Effect>,
    en: Seq<Effect>,
    name: String,
    url: Seq<char>,
) -> bool {
    if !valid_url(url) {
        status_post(a, b, "URL must start with http:// or https://"@) && en == eo
    } else {
        &&& b.config@ == added_view(a.config@, name@, url)
        &&& b == App { config: b.config, ..a }
        &&& en == eo.push(Effect::SaveConfig { then: SaveFollowUp::ProfileAdded { name } })
    }
}

/// A submitted text input (trimmed, not empty) goes to the dialog's purpose.
pub open spec fn submitted_post(
    a: App,
    b: App,
    eo: Seq<Effect>,
    en: Seq<Effect>,
    on: TextInputAction,
    input: Seq<char>,
) -> bool {
    match on {
        TextInputAction::PullModel => pull_started(a, b, eo, en, input),
        TextInputAction::CopyModel(source) => copy_started(a, b, eo, en, source, input),
        TextInputAction::ConfigAddName => {
            &&& en == eo
            &&& b.text_input matches Some(t) && t.title@ == "Add Profile"@ && t.prompt@
                == "URL for profile '"@ + input + "':"@ && t.input@.len() == 0
                && (t.on_submit matches TextInputAction::ConfigAddUrl(n) && n@ == input)
            &&& b == App { text_input: b.text_input, ..a }
        },
        TextInputAction::ConfigAddUrl(name) => profile_added(a, b, eo, en, name, input),
    }
}

/// A key press in the text input dialog.
pub open spec fn text_key_post(
    a: App,
    b: App,
    eo: Seq<Effect>,
    en: Seq<Effect>,
    key: KeyEvent,
    act: Action,
) -> bool {
    let t = a.text_input.unwrap();
    match key.code {
        KeyCode::Esc => act == Action::CloseOverlay && b == App { text_input: None, ..a } && en
            == eo,
        KeyCode::Enter => {
            &&& act == Action::NoOp
            &&& if trim(t.input@).len() == 0 {
                b == App { text_input: None, ..a } && en == eo
            } else {
                submitted_post(App { text_input: None, ..a }, b, eo, en, t.on_submit, trim(t.input@))
            }
        },
        KeyCode::Backspace => {
            &&& act == Action::NoOp
            &&& en == eo
            &&& b.text_input matches Some(u) && u.input@ == (if t.input@.len() > 0 {
                t.input@.drop_last()
            } else {
                t.input@
            }) && b == App {
                text_input: Some(TextInputState { input: u.input, ..t }),
                ..a
            }
        },
        KeyCode::Char(c) => {
            &&& act == Action::NoOp
            &&& en == eo
            &&& b.text_input matches Some(u) && u.input@ == t.input@.push(c) && b == App {
                text_input: Some(TextInputState { input: u.input, ..t }),
                ..a
            }
        },
        _ => act == Action::NoOp && b == a && en == eo,
    }
}

/// A key press while a pull is shown: Esc or q closes it once it is complete.
pub open spec fn pull_key_post(a: App, b: App, key: KeyEvent, act: Action) -> bool {
    if key.code == KeyCode::Esc || key.code == KeyCode::Char('q') {
        &&& act == Action::CloseOverlay
        &&& b == if a.pull.unwrap().is_complete {
            App { pull: None, ..a }
        } else {
            a
        }
    } else {
        act == Action::NoOp && b == a
    }
}

pub open spec fn sat_add16(x: u16, n: u16) -> u16 {
    if x + n > u16::MAX {
        u16::MAX
    } else {
        (x + n) as u16
    }
}

pub open spec fn sat_sub16(x: u16, n: u16) -> u16 {
    if x < n {
        0
    } else {
        (x - n) as u16
    }
}

/// The model detail overlay with its scroll offset changed to `s`.
pub open spec fn detail_scrolled(a: App, s: u16) -> App {
    App { model_detail: Some(ModelDetailState { scroll_offset: s, ..a.model_detail.unwrap() }), ..a }
}

/// A key press in the model detail overlay: Esc or q closes it; j/k and the
/// arrows scroll by one line, Ctrl+D/Ctrl+U by ten.
pub open spec fn detail_key_post(a: App, b: App, key: KeyEvent, act: Action) -> bool {
    let s = a.model_detail.unwrap().scroll_offset;
    match key.code {
        KeyCode::Esc => act == Action::CloseOverlay && b == App { model_detail: None, ..a },
        KeyCode::Down => act == Action::NoOp && b == detail_scrolled(a, sat_add16(s, 1)),
        KeyCode::Up => act == Action::NoOp && b == detail_scrolled(a, sat_sub16(s, 1)),
        KeyCode::Char(c) => if c == 'q' {
            act == Action::CloseOverlay && b == App { model_detail: None, ..a }
        } else if c == 'j' {
            act == Action::NoOp && b == detail_scrolled(a, sat_add16(s, 1))
        } else if c == 'k' {
            act == Action::NoOp && b == detail_scrolled(a, sat_sub16(s, 1))
        } else if c == 'd' && has_modifier(key, CONTROL) {
            act == Action::NoOp && b == detail_scrolled(a, sat_add16(s, 10))
        } else if c == 'u' && has_modifier(key, CONTROL) {
            act == Action::NoOp && b == detail_scrolled(a, sat_sub16(s, 10))
        } else {
            act == Action::NoOp && b == a
        },
        _ => act == Action::NoOp && b == a,
    }
}

/// The picker's filter becomes `f`: the list is filtered again and the first
/// entry selected when there is one.
pub open spec fn picker_refiltered(a: App, b: App, f: Seq<char>) -> bool {
    &&& b.model_picker.filter@ == f
    &&& string_views(b.model_picker.filtered_models@) == picker_list(a.models.models@, f)
    &&& b == App {
        model_picker: ModelPickerState {
            filter: b.model_picker.filter,
            filtered_models: b.model_picker.filtered_models,
            selected: if picker_list(a.models.models@, f).len() > 0 {
                Some(0usize)
            } else {
                a.model_picker.selected
            },
        },
        ..a
    }
}

/// A key press in the model picker: Enter picks the selected model for the
/// chat, Esc cancels, arrows move, typing edits the filter.
pub open spec fn picker_key_post(a: App, b: App, key: KeyEvent, act: Action) -> bool {
    let p = a.model_picker;
    let len = p.filtered_models@.len();
    match key.code {
        KeyCode::Esc => act == Action::PickerCancel && b == App { show_model_picker: false, ..a },
        KeyCode::Enter => {
            &&& act == Action::PickerConfirm
            &&& b == App {
                show_model_picker: false,
                chat: ChatState {
                    current_model: match p.selected {
                        Some(i) => if i < len {
                            Some(p.filtered_models@[i as int])
                        } else {
                            a.chat.current_model
                        },
                        None => a.chat.current_model,
                    },
                    ..a.chat
                },
                ..a
            }
        },
        KeyCode::Up => act == Action::NoOp && b == (if len > 0 {
            App {
                model_picker: ModelPickerState {
                    selected: Some(cyclic_step(p.selected, false, len)),
                    ..p
                },
                ..a
            }
        } else {
            a
        }),
        KeyCode::Down => act == Action::NoOp && b == (if len > 0 {
            App {
                model_picker: ModelPickerState {
                    selected: Some(cyclic_step(p.selected, true, len)),
                    ..p
                },
                ..a
            }
        } else {
            a
        }),
        KeyCode::Backspace => act == Action::NoOp && picker_refiltered(
            a,
            b,
            if p.filter@.len() > 0 {
                p.filter@.drop_last()
            } else {
                p.filter@
            },
        ),
        KeyCode::Char(c) => act == Action::NoOp && picker_refiltered(a, b, p.filter@.push(c)),
        _ => act == Action::NoOp && b == a,
    }
}

/// Making the selected profile the active one, then saving.
pub open spec fn switch_profile_post(a: App, b: App, eo: Seq<Effect>, en: Seq<Effect>) -> bool {
    match selected_profile(a) {
        None => no_profile_selected(a, b, eo, en),
        Some(p) => {
            &&& b == App {
                config: Config { active_profile: Some(p.name), default_url: p.url, ..a.config },
                ..a
            }
            &&& en == eo.push(
                Effect::SaveConfig { then: SaveFollowUp::ProfileSwitched { name: p.name, url: p.url } },
            )
        },
    }
}

/// Asking to remove the selected profile; the active one cannot be removed.
pub open spec fn remove_profile_post(a: App, b: App, eo: Seq<Effect>, en: Seq<Effect>) -> bool {
    match selected_profile(a) {
        None => no_profile_selected(a, b, eo, en),
        Some(p) => en == eo && if opt_view(a.config.active_profile) == Some(p.name@) {
            status_post(a, b, "Cannot remove active profile '"@ + p.name@ + "'. Switch first."@)
        } else {
            confirm_post(
                a,
                b,
                "Remove Profile"@,
                "Remove profile '"@ + p.name@ + "'? (y/n)"@,
                ConfirmAction::RemoveProfile(p.name),
            )
        },
    }
}

/// Testing whether the selected profile's server answers.
pub open spec fn test_profile_post(a: App, b: App, eo: Seq<Effect>, en: Seq<Effect>) -> bool {
    match selected_profile(a) {
        None => no_profile_selected(a, b, eo, en),
        Some(p) => {
            &&& en == eo.push(Effect::TestProfile { name: p.name, url: p.url })
            &&& status_post(a, b, "Testing '"@ + p.name@ + "'..."@)
        },
    }
}

/// The status message after saving: `ok_msg`, or the save error.
pub open spec fn saved_status(result: Result<(), String>, ok_msg: Seq<char>) -> Seq<char> {
    match result {
        Ok(()) => ok_msg,
        Err(e) => "Failed to save config: "@ + e@,
    }
}

/// What follows a save of the configuration.
pub open spec fn after_save_post(
    a: App,
    b: App,
    eo: Seq<Effect>,
    en: Seq<Effect>,
    follow: SaveFollowUp,
    result: Result<(), String>,
) -> bool {
    match follow {
        SaveFollowUp::ProfileAdded { name } => en == eo && exists|m: App|
            status_post(a, m, saved_status(result, "Added profile '"@ + name@ + "'"@))
                && profiles_refreshed(m, b),
        SaveFollowUp::ProfileRemoved { name } => en == eo && exists|m: App|
            status_post(a, m, saved_status(result, "Removed profile '"@ + name@ + "'"@))
                && profiles_refreshed(m, b),
        SaveFollowUp::ProfileSwitched { name, url } => match result {
            Err(e) => en == eo && status_post(a, b, "Failed to save config: "@ + e@),
            Ok(()) => {
                &&& b.server_url@ == trim_end_char(url@, '/')
                &&& en == eo.push(Effect::Reconnect { url }).push(Effect::TestConnection).push(
                    Effect::FetchModels,
                )
                &&& status_post(
                    App {
                        server_url: b.server_url,
                        connected: false,
                        models: crate::tui::app::ModelsState { loading: true, ..a.models },
                        ..a
                    },
                    b,
                    "Switched to '"@ + name@ + "' ("@ + url@ + ")"@,
                )
            },
        },
    }
}

impl App {
    fn execute_confirmed(&mut self, action: ConfirmAction, effects: &mut Vec<Effect>)
        ensures
            keeps_limits(*old(self), *final(self)),
            confirmed_post(*old(self), *final(self), old(effects)@, final(effects)@, action),
    {
        match action {
            ConfirmAction::DeleteModel(name) => {
                let msg = concat3("Deleting ", name.as_str(), "...");
                effects.push(Effect::DeleteModel { name });
                self.set_status(msg);
            },
            ConfirmAction::UnloadModel(name) => {
                let msg = concat3("Unloading ", name.as_str(), "...");
                effects.push(Effect::UnloadModel { name });
                self.set_status(msg);
            },
            ConfirmAction::RemoveProfile(name) => {
                self.config.urls.remove(name.as_str());
                effects.push(Effect::SaveConfig { then: SaveFollowUp::ProfileRemoved { name } });
            },
        }
    }

    pub fn handle_confirm_key(&mut self, key: KeyEvent, effects: &mut Vec<Effect>) -> (act: Action)
        requires
            old(self).confirm is Some,
        ensures
            keeps_limits(*old(self), *final(self)),
            confirm_key_post(*old(self), *final(self), old(effects)@, final(effects)@, key, act),
    {
        match key.code {
            KeyCode::Char('y') | KeyCode::Char('Y') => {
                let state = self.confirm.take();
                match state {
                    Some(state) => self.execute_confirmed(state.on_confirm, effects),
                    None => {},
                }
                Action::ConfirmYes
            },
            KeyCode::Char('n') | KeyCode::Char('N') | KeyCode::Esc => {
                self.confirm = None;
                Action::ConfirmNo
            },
            _ => Action::NoOp,
        }
    }

    fn pull_model(&mut self, name: String, effects: &mut Vec<Effect>)
        ensures
            keeps_limits(*old(self), *final(self)),
            pull_started(*old(self), *final(self), old(effects)@, final(effects)@, name@),
    {
        self.pull = Some(
            PullState {
                model_name: name.clone(),
                status: "Starting pull...".to_string(),
                layers: Vec::new(),
                is_complete: false,
            },
        );
        let ghost eo = effects@;
        effects.push(Effect::PullModel { name });
        assert(effects@.drop_last() =~= eo);
    }

    fn copy_model(&mut self, source: String, destination: String, effects: &mut Vec<Effect>)
        ensures
            keeps_limits(*old(self), *final(self)),
            copy_started(
                *old(self),
                *final(self),
                old(effects)@,
                final(effects)@,
                source,
                destination@,
            ),
    {
        let msg = concat5("Copying ", source.as_str(), " -> ", destination.as_str(), "...");
        let ghost eo = effects@;
        effects.push(Effect::CopyModel { source, destination });
        assert(effects@.drop_last() =~= eo);
        self.set_status(msg);
    }

    /// Adds a profile (from the add-profile dialog).
    fn config_save_profile(&mut self, name: String, url: String, effects: &mut Vec<Effect>)
        ensures
            keeps_limits(*old(self), *final(self)),
            profile_added(*old(self), *final(self), old(effects)@, final(effects)@, name, url@),
    {
        if !is_valid_url(url.as_str()) {
            self.set_status("URL must start with http:// or https://".to_string());
            return;
        }
        self.config.urls.insert(name.clone(), url.clone());
        if self.config.active_profile.is_none() {
            self.config.active_profile = Some(name.clone());
            self.config.default_url = url;
        }
        effects.push(Effect::SaveConfig { then: SaveFollowUp::ProfileAdded { name } });
    }

    fn execute_text_input(
        &mut self,
        action: TextInputAction,
        input: String,
        effects: &mut Vec<Effect>,
    )
        ensures
            keeps_limits(*old(self), *final(self)),
            submitted_post(*old(self), *final(self), old(effects)@, final(effects)@, action, input@),
    {
        match action {
            TextInputAction::PullModel => self.pull_model(input, effects),
            TextInputAction::CopyModel(source) => self.copy_model(source, input, effects),
            TextInputAction::ConfigAddName => {
                let prompt = concat3("URL for profile '", input.as_str(), "':");
                self.text_input = Some(
                    TextInputState {
                        title: "Add Profile".to_string(),
                        prompt,
                        input: String::new(),
                        on_submit: TextInputAction::ConfigAddUrl(input),
                    },
                );
            },
            TextInputAction::ConfigAddUrl(name) => self.config_save_profile(name, input, effects),
        }
    }

    pub fn handle_text_input_key(&mut self, key: KeyEvent, effects: &mut Vec<Effect>) -> (act:
        Action)
        requires
            old(self).text_input is Some,
        ensures
            keeps_limits(*old(self), *final(self)),
            text_key_post(*old(self), *final(self), old(effects)@, final(effects)@, key, act),
    {
        match key.code {
            KeyCode::Esc => {
                self.text_input = None;
                Action::CloseOverlay
            },
            KeyCode::Enter => {
                let state = self.text_input.take();
                match state {
                    Some(state) => {
                        let input = trimmed(state.input.as_str());
                        if !input.as_str().is_empty() {
                            self.execute_text_input(state.on_submit, input, effects);
                        }
                    },
                    None => {},
                }
                Action::NoOp
            },
            KeyCode::Backspace => {
                let state = self.text_input.take();
                match state {
                    Some(state) => {
                        let input = without_last_char(state.input.as_str());
                        self.text_input = Some(TextInputState { input, ..state });
                    },
                    None => {},
                }
                Action::NoOp
            },
            KeyCode::Char(c) => {
                let state = self.text_input.take();
                match state {
                    Some(state) => {
                        let input = with_char(state.input.as_str(), c);
                        self.text_input = Some(TextInputState { input, ..state });
                    },
                    None => {},
                }
                Action::NoOp
            },
            _ => Action::NoOp,
        }
    }

    pub fn handle_pull_overlay_key(&mut self, key: KeyEvent) -> (act: Action)
        requires
            old(self).pull is Some,
        ensures
            keeps_limits(*old(self), *final(self)),
            pull_key_post(*old(self), *final(self), key, act),
    {
        match key.code {
            KeyCode::Esc | KeyCode::Char('q') => {
                let complete = match &self.pull {
                    Some(p) => p.is_complete,
                    None => false,
                };
                if complete {
                    self.pull = None;
                }
                Action::CloseOverlay
            },
            _ => Action::NoOp,
        }
    }

    fn scroll_detail(&mut self, down: bool, n: u16)
        requires
            old(self).model_detail is Some,
        ensures
            keeps_limits(*old(self), *final(self)),
            *final(self) == detail_scrolled(
                *old(self),
                if down {
                    sat_add16(old(self).model_detail.unwrap().scroll_offset, n)
                } else {
                    sat_sub16(old(self).model_detail.unwrap().scroll_offset, n)
                },
            ),
    {
        let detail = self.model_detail.take();
        match detail {
            Some(d) => {
                let s = if down {
                    d.scroll_offset.saturating_add(n)
                } else {
                    d.scroll_offset.saturating_sub(n)
                };
                self.model_detail = Some(ModelDetailState { scroll_offset: s, ..d });
            },
            None => {},
        }
    }

    pub fn handle_model_detail_key(&mut self, key: KeyEvent) -> (act: Action)
        requires
            old(self).model_detail is Some,
        ensures
            keeps_limits(*old(self), *final(self)),
            detail_key_post(*old(self), *final(self), key, act),
    {
        match key.code {
            KeyCode::Esc => {
                self.model_detail = None;
                Action::CloseOverlay
            },
            KeyCode::Down => {
                self.scroll_detail(true, 1);
                Action::NoOp
            },
            KeyCode::Up => {
                self.scroll_detail(false, 1);
                Action::NoOp
            },
            KeyCode::Char(c) => {
                if c == 'q' {
                    self.model_detail = None;
                    Action::CloseOverlay
                } else if c == 'j' {
                    self.scroll_detail(true, 1);
                    Action::NoOp
                } else if c == 'k' {
                    self.scroll_detail(false, 1);
                    Action::NoOp
                } else if c == 'd' && holds(key, CONTROL) {
                    self.scroll_detail(true, 10);
                    Action::NoOp
                } else if c == 'u' && holds(key, CONTROL) {
                    self.scroll_detail(false, 10);
                    Action::NoOp
                } else {
                    Action::NoOp
                }
            },
            _ => Action::NoOp,
        }
    }

    fn set_picker_filter(&mut self, filter: String)
        ensures
            keeps_limits(*old(self), *final(self)),
            picker_refiltered(*old(self), *final(self), filter@),
    {
        self.model_picker.filter = filter;
        self.update_model_picker_filter();
        if self.model_picker.filtered_models.len() > 0 {
            self.model_picker.selected = Some(0);
        }
    }

    pub fn handle_model_picker_key(&mut self, key: KeyEvent) -> (act: Action)
        requires
            old(self).inv(),
        ensures
            keeps_limits(*old(self), *final(self)),
            picker_key_post(*old(self), *final(self), key, act),
    {
        match key.code {
            KeyCode::Esc => {
                self.show_model_picker = false;
                Action::PickerCancel
            },
            KeyCode::Enter => {
                if let Some(idx) = self.model_picker.selected {
                    if idx < self.model_picker.filtered_models.len() {
                        self.chat.current_model = Some(
                            self.model_picker.filtered_models[idx].clone(),
                        );
                    }
                }
                self.show_model_picker = false;
                Action::PickerConfirm
            },
            KeyCode::Up | KeyCode::Down => {
                let len = self.model_picker.filtered_models.len();
                if len > 0 {
                    let forward = key.code == KeyCode::Down;
                    self.model_picker.selected = Some(
                        step_index(self.model_picker.selected, forward, len),
                    );
                }
                Action::NoOp
            },
            KeyCode::Backspace => {
                let f = without_last_char(self.model_picker.filter.as_str());
                self.set_picker_filter(f);
                Action::NoOp
            },
            KeyCode::Char(c) => {
                let f = with_char(self.model_picker.filter.as_str(), c);
                self.set_picker_filter(f);
                Action::NoOp
            },
            _ => Action::NoOp,
        }
    }

    /// The selected profile, if the selection is on one.
    fn selected_profile_entry(&self) -> (r: Option<(String, String)>)
        ensures
            match r {
                Some((n, u)) => selected_profile(*self) matches Some(p) && p.name == n && p.url
                    == u,
                None => selected_profile(*self) is None,
            },
    {
        match self.config_state.selected {
            Some(idx) => if idx < self.config_state.profiles.len() {
                let p = &self.config_state.profiles[idx];
                Some((p.name.clone(), p.url.clone()))
            } else {
                None
            },
            None => None,
        }
    }

    pub fn config_switch_profile(&mut self, effects: &mut Vec<Effect>)
        ensures
            keeps_limits(*old(self), *final(self)),
            switch_profile_post(*old(self), *final(self), old(effects)@, final(effects)@),
    {
        let Some((name, url)) = self.selected_profile_entry() else {
            self.set_status("No profile selected".to_string());
            return;
        };
        self.config.active_profile = Some(name.clone());
        self.config.default_url = url.clone();
        effects.push(Effect::SaveConfig { then: SaveFollowUp::ProfileSwitched { name, url } });
    }

    pub fn config_remove_profile(&mut self, effects: &mut Vec<Effect>)
        ensures
            keeps_limits(*old(self), *final(self)),
            remove_profile_post(*old(self), *final(self), old(effects)@, final(effects)@),
    {
        let Some((name, _url)) = self.selected_profile_entry() else {
            self.set_status("No profile selected".to_string());
            return;
        };
        let is_active = match &self.config.active_profile {
            Some(a) => str_eq(a.as_str(), name.as_str()),
            None => false,
        };
        if is_active {
            self.set_status(concat3("Cannot remove active profile '", name.as_str(), "'. Switch first."));
            return;
        }
        let message = concat3("Remove profile '", name.as_str(), "'? (y/n)");
        self.confirm = Some(
            ConfirmState {
                title: "Remove Profile".to_string(),
                message,
                on_confirm: ConfirmAction::RemoveProfile(name),
            },
        );
    }

    pub fn config_test_connection(&mut self, effects: &mut Vec<Effect>)
        ensures
            keeps_limits(*old(self), *final(self)),
            test_profile_post(*old(self), *final(self), old(effects)@, final(effects)@),
    {
        let Some((name, url)) = self.selected_profile_entry() else {
            self.set_status("No profile selected".to_string());
            return;
        };
        let msg = concat3("Testing '", name.as_str(), "'...");
        effects.push(Effect::TestProfile { name, url });
        self.set_status(msg);
    }

    /// Continues an operation once the configuration has been saved (or the
    /// save has failed with the message in `result`).
    pub fn after_config_save(
        &mut self,
        follow: SaveFollowUp,
        result: Result<(), String>,
        effects: &mut Vec<Effect>,
    )
        ensures
            keeps_limits(*old(self), *final(self)),
            after_save_post(*old(self), *final(self), old(effects)@, final(effects)@, follow, result),
    {
        let ghost a = *self;
        match follow {
            SaveFollowUp::ProfileAdded { name } => {
                let msg = match &result {
                    Ok(()) => concat3("Added profile '", name.as_str(), "'"),
                    Err(e) => concat2("Failed to save config: ", e.as_str()),
                };
                self.set_status(msg);
                let ghost m = *self;
                self.refresh_config_profiles();
                assert(status_post(a, m, saved_status(result, "Added profile '"@ + name@ + "'"@)));
            },
            SaveFollowUp::ProfileRemoved { name } => {
                let msg = match &result {
                    Ok(()) => concat3("Removed profile '", name.as_str(), "'"),
                    Err(e) => concat2("Failed to save config: ", e.as_str()),
                };
                self.set_status(msg);
                let ghost m = *self;
                self.refresh_config_profiles();
                assert(status_post(a, m, saved_status(result, "Removed profile '"@ + name@ + "'"@)));
            },
            SaveFollowUp::ProfileSwitched { name, url } => match result {
                Err(e) => {
                    self.set_status(concat2("Failed to save config: ", e.as_str()));
                },
                Ok(()) => {
                    self.server_url = normalize_base_url(url.as_str());
                    let msg = concat5("Switched to '", name.as_str(), "' (", url.as_str(), ")");
                    effects.push(Effect::Reconnect { url });
                    self.connected = false;
                    effects.push(Effect::TestConnection);
                    self.fetch_models(effects);
                    self.set_status(msg);
                },
            },
        }
    }
}

} // verus!
