//! The data exchanged with an Ollama server, as plain values.

use vstd::prelude::*;

verus! {

/// Per-model details reported by the server.
pub struct ModelDetails {
    pub family: Option<String>,
    pub parameter_size: Option<String>,
    pub quantization_level: Option<String>,
}

/// A model installed on the server (`GET /api/tags`).
pub struct ModelInfo {
    pub name: String,
    pub size: u64,
    pub modified_at: String,
    pub digest: Option<String>,
    pub details: Option<ModelDetails>,
}

/// A model loaded in memory (`GET /api/ps`).
pub struct RunningModel {
    pub name: String,
    pub size: u64,
    pub expires_at: Option<String>,
    pub details: Option<ModelDetails>,
}

/// The list of installed models.
pub struct TagsResponse {
    pub models: Vec<ModelInfo>,
}

/// The list of loaded models.
pub struct PsResponse {
    pub models: Vec<RunningModel>,
}

/// One line of progress while pulling or pushing a model.
pub struct ProgressResponse {
    pub status: Option<String>,
    pub digest: Option<String>,
    pub total: Option<u64>,
    pub completed: Option<u64>,
    pub error: Option<String>,
}

/// One message of a conversation.
pub struct ChatMessage {
    pub role: String,
    pub content: String,
}

impl ChatMessage {
    /// A copy of this message.
    pub fn duplicate(&self) -> (m: ChatMessage)
        ensures
            m == *self,
    {
        ChatMessage { role: self.role.clone(), content: self.content.clone() }
    }
}

/// A copy of a conversation.
pub fn copy_messages(v: &Vec<ChatMessage>) -> (r: Vec<ChatMessage>)
    ensures
        r@ == v@,
{
    let mut r: Vec<ChatMessage> = Vec::new();
    let mut i: usize = 0;
    while i < v.len()
        invariant
            i <= v@.len(),
            r@ == v@.subrange(0, i as int),
        decreases v@.len() - i,
    {
        r.push(v[i].duplicate());
        assert(v@.subrange(0, i + 1) == v@.subrange(0, i as int).push(v@[i as int]));
        i += 1;
    }
    assert(v@.subrange(0, v@.len() as int) == v@);
    r
}

/// One line of a chat reply (`POST /api/chat`).
pub struct ChatResponse {
    pub message: Option<ChatMessage>,
    pub done: Option<bool>,
    pub eval_count: Option<u64>,
    pub eval_duration: Option<u64>,
    pub total_duration: Option<u64>,
    pub error: Option<String>,
}

/// One line of progress while creating a model.
pub struct CreateResponse {
    pub status: Option<String>,
    pub error: Option<String>,
}

/// The body of an error reply.
pub struct ErrorResponse {
    pub error: String,
}

/// Whether `v` is `false`: a field that holds `false` is left out of a request body.
pub fn is_false(v: &bool) -> (r: bool)
    ensures
        r == !*v,
{
    !*v
}

/// A text generation request (`POST /api/generate`). `options` and
/// `context` hold JSON text, sent as JSON values.
pub struct GenerateRequest {
    pub model: String,
    pub prompt: String,
    pub stream: bool,
    pub system: Option<String>,
    pub format: Option<String>,
    pub options: Option<String>,
    pub template: Option<String>,
    pub context: Option<String>,
    pub raw: bool,
    pub keep_alive: Option<i64>,
}

impl GenerateRequest {
    /// A request for `prompt` to `model` with every optional field unset.
    pub fn plain(model: String, prompt: String, stream: bool) -> (r: GenerateRequest)
        ensures
            r.model == model,
            r.prompt == prompt,
            r.stream == stream,
            r.system is None,
            r.format is None,
            r.options is None,
            r.template is None,
            r.context is None,
            !r.raw,
            r.keep_alive is None,
    {
        GenerateRequest {
            model,
            prompt,
            stream,
            system: None,
            format: None,
            options: None,
            template: None,
            context: None,
            raw: false,
            keep_alive: None,
        }
    }

    /// The request that makes the server drop `model` from memory: an empty
    /// prompt, no stream, and a keep-alive of zero.
    pub fn unload(model: String) -> (r: GenerateRequest)
        ensures
            r.model == model,
            r.prompt@ == Seq::<char>::empty(),
            !r.stream,
            r.system is None,
            r.format is None,
            r.options is None,
            r.template is None,
            r.context is None,
            !r.raw,
            r.keep_alive == Some(0i64),
    {
        let mut r = GenerateRequest::plain(model, String::new(), false);
        r.keep_alive = Some(0);
        r
    }
}

/// One line of a generation reply (`POST /api/generate`); `context` is JSON text.
pub struct GenerateResponse {
    pub response: Option<String>,
    pub done: Option<bool>,
    pub eval_count: Option<u64>,
    pub eval_duration: Option<u64>,
    pub total_duration: Option<u64>,
    pub prompt_eval_count: Option<u64>,
    pub prompt_eval_duration: Option<u64>,
    pub context: Option<String>,
    pub error: Option<String>,
}

/// A chat request (`POST /api/chat`); `options` is JSON text.
pub struct ChatRequest {
    pub model: String,
    pub messages: Vec<ChatMessage>,
    pub stream: bool,
    pub format: Option<String>,
    pub options: Option<String>,
}

/// An embedding request (`POST /api/embed`); `options` is JSON text.
pub struct EmbedRequest {
    pub model: String,
    pub input: String,
    pub truncate: bool,
    pub options: Option<String>,
}

/// A request for a model's details (`POST /api/show`).
pub struct ShowRequest {
    pub name: String,
    pub verbose: bool,
}

/// A request to copy a model (`POST /api/copy`).
pub struct CopyRequest {
    pub source: String,
    pub destination: String,
}

/// A request to delete a model (`DELETE /api/delete`).
pub struct DeleteRequest {
    pub name: String,
}

/// A request to create a model (`POST /api/create`).
pub struct CreateRequest {
    pub name: String,
    pub stream: bool,
    pub from: Option<String>,
    pub modelfile: Option<String>,
    pub quantize: Option<String>,
}

/// A request to push a model to a registry (`POST /api/push`).
pub struct PushRequest {
    pub name: String,
    pub stream: bool,
    pub insecure: bool,
}

/// What the server shows of one model (`POST /api/show`), with the model
/// information already rendered as indented JSON text.
pub struct ShowDetails {
    pub modelfile: Option<String>,
    pub parameters: Option<String>,
    pub template: Option<String>,
    pub model_info: Option<String>,
}

} // verus!
