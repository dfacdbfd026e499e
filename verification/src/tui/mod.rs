//! The interactive terminal interface: its sections, key bindings, actions,
//! events and the state machine that decides what each key press or server
//! reply does.

pub mod action;
pub mod keymap;
pub mod event;
pub mod app;
pub mod app_actions;
pub mod app_dialogs;
pub mod app_keys;
pub mod app_events;
pub mod theme;
pub mod markdown;
pub mod display;
pub mod layout;
