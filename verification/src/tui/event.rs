//! Replies from the background requests of the interactive interface.

use vstd::prelude::*;
use crate::api::{ModelInfo, RunningModel, ShowDetails};

verus! {

pub enum ApiEvent {
    ChatToken(String),
    ChatDone { eval_count: Option<u64>, eval_duration: Option<u64>, total_duration: Option<u64> },
    ChatError(String),
    ModelsLoaded(Vec<ModelInfo>),
    RunningModelsLoaded(Vec<RunningModel>),
    ModelDetailLoaded { name: String, response: ShowDetails },
    ModelDeleted(String),
    ModelUnloaded(String),
    ModelCopied { source: String, destination: String },
    PullProgress { status: String, digest: Option<String>, total: Option<u64>, completed: Option<u64> },
    PullComplete(String),
    PullError(String),
    ConnectionStatus(bool),
    Error(String),
}

/// A list of models from the server is no longer than the interface can
/// number (2^31 - 1 entries); the other replies carry no list.
pub open spec fn event_within_limits(event: ApiEvent) -> bool {
    match event {
        ApiEvent::ModelsLoaded(models) => models@.len() <= 0x7fff_ffff,
        ApiEvent::RunningModelsLoaded(models) => models@.len() <= 0x7fff_ffff,
        _ => true,
    }
}

impl ApiEvent {
    /// Whether the reply's list, if any, is short enough for the interface.
    pub fn within_limits(&self) -> (b: bool)
        ensures
            b == event_within_limits(*self),
    {
        match self {
            ApiEvent::ModelsLoaded(models) => models.len() <= 0x7fff_ffff,
            ApiEvent::RunningModelsLoaded(models) => models.len() <= 0x7fff_ffff,
            _ => true,
        }
    }
}

} // verus!
