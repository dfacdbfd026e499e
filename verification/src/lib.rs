//! A library for managing remote Ollama instances: configuration profiles,
//! number and date formatting, the command decisions of the command line tool,
//! and the state machine of the interactive terminal interface.

pub mod text;
pub mod numfmt;
pub mod profiles;
pub mod config;
pub mod config_cmd;
pub mod cli;
pub mod datetime;
pub mod client;
pub mod progress;
pub mod library;
pub mod benchmark;
pub mod api;
pub mod tui;

use vstd::prelude::*;

verus! {
} // verus!
