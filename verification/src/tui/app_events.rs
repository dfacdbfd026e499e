//! Server replies: how each one updates the interface, and how one streamed
//! reply line becomes events.

use vstd::prelude::*;
use crate::api::{ChatMessage, ChatResponse, ModelInfo, ProgressResponse, RunningModel};
use crate::text::{concat2, concat3, concat5, str_eq};
use crate::tui::app::{
    App, ChatState, ChatStats, Effect, ModelDetailState, ModelsState, PullLayer,
    PullLayerProgress, PullState, RunningState, keeps_limits, max_pos,
};
use crate::tui::app_actions::{fetch_models_post, fetch_running_post, send_post, status_post};
use crate::text::trim;
use crate::tui::event::{event_within_limits, ApiEvent};

verus! {

/// The layers of a pull as (digest, total, completed).
pub open spec fn layers_view(ls: Seq<PullLayer>) -> Seq<(Seq<char>, u64, u64)> {
    ls.map_values(|l: PullLayer| (l.digest@, l.progress.total, l.progress.completed))
}

/// Whether `i` is the first layer with digest `d`.
pub open spec fn first_layer(ls: Seq<(Seq<char>, u64, u64)>, d: Seq<char>, i: int) -> bool {
    0 <= i < ls.len() && ls[i].0 == d && forall|j: int| 0 <= j < i ==> ls[j].0 != d
}

proof fn lemma_first_layer_unique(ls: Seq<(Seq<char>, u64, u64)>, d: Seq<char>, i: int, k: int)
    requires
        first_layer(ls, d, i),
        first_layer(ls, d, k),
    ensures
        i == k,
{
    if i < k {
        assert(ls[i].0 != d);
    } else if k < i {
        assert(ls[k].0 != d);
    }
}

/// The layers after a progress report for digest `d`: its entry is updated
/// in place, or appended when the digest is new.
pub open spec fn layers_after(ls: Seq<(Seq<char>, u64, u64)>, d: Seq<char>, t: u64, c: u64) -> Seq<
    (Seq<char>, u64, u64),
> {
    if exists|i: int| first_layer(ls, d, i) {
        ls.update(choose|i: int| first_layer(ls, d, i), (d, t, c))
    } else {
        ls.push((d, t, c))
    }
}

/// Whether no two layers share a digest.
pub open spec fn distinct_digests(ls: Seq<(Seq<char>, u64, u64)>) -> bool {
    forall|i: int, j: int| 0 <= i < j < ls.len() ==> ls[i].0 != ls[j].0
}

/// A progress report keeps one layer per digest: the reported layer is
/// there with the reported counts, and no digest appears twice.
pub proof fn law_one_layer_per_digest(ls: Seq<(Seq<char>, u64, u64)>, d: Seq<char>, t: u64, c: u64)
    requires
        distinct_digests(ls),
    ensures
        distinct_digests(layers_after(ls, d, t, c)),
        layers_after(ls, d, t, c).contains((d, t, c)),
{
    let r = layers_after(ls, d, t, c);
    if exists|i: int| first_layer(ls, d, i) {
        let i = choose|i: int| first_layer(ls, d, i);
        assert(r == ls.update(i, (d, t, c)));
        assert(r[i] == (d, t, c));
        assert forall|p: int, q: int| 0 <= p < q < r.len() implies r[p].0 != r[q].0 by {
            assert(r[p].0 == ls[p].0);
            assert(r[q].0 == ls[q].0);
        }
    } else {
        assert forall|j: int| 0 <= j < ls.len() implies ls[j].0 != d by {
            if ls[j].0 == d {
                assert(first_layer(ls, d, j));
            }
        }
        assert(r == ls.push((d, t, c)));
        assert(r[ls.len() as int] == (d, t, c));
        assert forall|p: int, q: int| 0 <= p < q < r.len() implies r[p].0 != r[q].0 by {
            if q < ls.len() {
                assert(r[p].0 == ls[p].0);
                assert(r[q].0 == ls[q].0);
            } else {
                assert(r[p].0 == ls[p].0);
            }
        }
    }
}

/// What a server reply does to the interface.
pub open spec fn event_post(a: App, b: App, eo: Seq<Effect>, en: Seq<Effect>, e: ApiEvent) -> bool {
    match e {
        ApiEvent::ChatToken(t) => {
            &&& b.chat.streaming_buffer@ == a.chat.streaming_buffer@ + t@
            &&& b == App { chat: ChatState { streaming_buffer: b.chat.streaming_buffer, ..a.chat }, ..a }
            &&& en == eo
        },
        ApiEvent::ChatDone { eval_count, eval_duration, total_duration } => {
            let buf = a.chat.streaming_buffer;
            &&& if buf@.len() > 0 {
                &&& b.chat.messages@.len() == a.chat.messages@.len() + 1
                &&& b.chat.messages@.drop_last() == a.chat.messages@
                &&& b.chat.messages@.last().role@ == "assistant"@
                &&& b.chat.messages@.last().content == buf
                &&& b.chat.streaming_buffer@.len() == 0
            } else {
                b.chat.messages == a.chat.messages && b.chat.streaming_buffer == buf
            }
            &&& b == App {
                chat: ChatState {
                    messages: b.chat.messages,
                    streaming_buffer: b.chat.streaming_buffer,
                    is_streaming: false,
                    last_stats: match (eval_count, eval_duration, total_duration) {
                        (Some(ec), Some(ed), Some(td)) => Some(
                            ChatStats { eval_count: ec, eval_duration: ed, total_duration: td },
                        ),
                        _ => a.chat.last_stats,
                    },
                    ..a.chat
                },
                ..a
            }
            &&& en == eo
        },
        ApiEvent::ChatError(err) => {
            &&& b.chat.streaming_buffer@.len() == 0
            &&& status_post(
                App {
                    chat: ChatState {
                        is_streaming: false,
                        streaming_buffer: b.chat.streaming_buffer,
                        ..a.chat
                    },
                    ..a
                },
                b,
                "Chat error: "@ + err@,
            )
            &&& en == eo
        },
        ApiEvent::ModelsLoaded(models) => {
            &&& b == App {
                models: ModelsState {
                    models,
                    loading: false,
                    selected: if a.models.selected is None && models@.len() > 0 {
                        Some(0usize)
                    } else {
                        a.models.selected
                    },
                },
                chat: ChatState {
                    current_model: if a.chat.current_model is None && models@.len() > 0 {
                        Some(models@[0].name)
                    } else {
                        a.chat.current_model
                    },
                    ..a.chat
                },
                ..a
            }
            &&& en == eo
        },
        ApiEvent::RunningModelsLoaded(models) => {
            &&& b == App {
                running: RunningState {
                    models,
                    loading: false,
                    selected: if a.running.selected is None && models@.len() > 0 {
                        Some(0usize)
                    } else {
                        a.running.selected
                    },
                },
                ..a
            }
            &&& en == eo
        },
        ApiEvent::ModelDetailLoaded { name, response } => {
            &&& b == App {
                model_detail: Some(ModelDetailState { name, response, scroll_offset: 0 }),
                status_message: None,
                ..a
            }
            &&& en == eo
        },
        ApiEvent::ModelDeleted(name) => exists|m: App|
            status_post(a, m, "Model '"@ + name@ + "' deleted"@) && fetch_models_post(m, b, eo, en),
        ApiEvent::ModelUnloaded(name) => exists|m: App|
            status_post(a, m, "Model '"@ + name@ + "' unloaded"@) && fetch_running_post(
                m,
                b,
                eo,
                en,
            ),
        ApiEvent::ModelCopied { source, destination } => exists|m: App|
            status_post(a, m, "Copied '"@ + source@ + "' -> '"@ + destination@ + "'"@)
                && fetch_models_post(m, b, eo, en),
        ApiEvent::PullProgress { status, digest, total, completed } => {
            &&& en == eo
            &&& match a.pull {
                None => b == a,
                Some(p) => {
                    &&& b.pull matches Some(q) && q == PullState {
                        status,
                        layers: q.layers,
                        ..p
                    } && layers_view(q.layers@) == match (digest, total, completed) {
                        (Some(d), Some(t), Some(c)) => layers_after(layers_view(p.layers@), d@, t, c),
                        _ => layers_view(p.layers@),
                    }
                    &&& b == App { pull: b.pull, ..a }
                },
            }
        },
        ApiEvent::PullComplete(name) => {
            let a2 = match a.pull {
                None => a,
                Some(p) => App {
                    pull: Some(PullState { status: b.pull.unwrap().status, is_complete: true, ..p }),
                    ..a
                },
            };
            &&& a.pull is Some ==> b.pull.unwrap().status@ == "success"@
            &&& exists|m: App|
                status_post(a2, m, "Model '"@ + name@ + "' pulled successfully"@)
                    && fetch_models_post(m, b, eo, en)
        },
        ApiEvent::PullError(err) => {
            let a2 = match a.pull {
                None => a,
                Some(p) => App {
                    pull: Some(PullState { status: b.pull.unwrap().status, is_complete: true, ..p }),
                    ..a
                },
            };
            &&& a.pull is Some ==> b.pull.unwrap().status@ == "Error: "@ + err@
            &&& status_post(a2, b, "Pull failed: "@ + err@)
            &&& en == eo
        },
        ApiEvent::ConnectionStatus(c) => b == App { connected: c, ..a } && en == eo,
        ApiEvent::Error(err) => {
            &&& b == App {
                status_message: Some(err),
                status_serial: crate::tui::app::next_serial(a.status_serial),
                ..a
            }
            &&& en == eo
        },
    }
}

/// Records a progress report for `digest`: updates its layer, or appends one.
pub fn record_layer(layers: &mut Vec<PullLayer>, digest: String, total: u64, completed: u64)
    ensures
        layers_view(final(layers)@) == layers_after(layers_view(old(layers)@), digest@, total, completed),
{
    let ghost ls = layers_view(layers@);
    let ghost d = digest@;
    let mut i: usize = 0;
    let mut found = false;
    while i < layers.len() && !found
        invariant
            i <= layers@.len(),
            ls == layers_view(layers@),
            d == digest@,
            found ==> i < layers@.len() && first_layer(ls, d, i as int),
            !found ==> forall|j: int| 0 <= j < i ==> ls[j].0 != d,
        decreases layers@.len() - i + (if found { 0int } else { 1int }),
    {
        assert(ls[i as int].0 == layers@[i as int].digest@);
        if str_eq(layers[i].digest.as_str(), digest.as_str()) {
            found = true;
        } else {
            i += 1;
        }
    }
    if found {
        proof {
            let k = choose|k: int| first_layer(ls, d, k);
            lemma_first_layer_unique(ls, d, i as int, k);
        }
        layers.set(i, PullLayer { digest, progress: PullLayerProgress { total, completed } });
        assert(layers_view(layers@) =~= ls.update(i as int, (d, total, completed)));
    } else {
        layers.push(PullLayer { digest, progress: PullLayerProgress { total, completed } });
        assert(!exists|k: int| first_layer(ls, d, k));
        assert(layers_view(layers@) =~= ls.push((d, total, completed)));
    }
}

/// A message sent from the chat input, followed by a streamed reply,
/// leaves the conversation with the message and then the reply at its end,
/// and no reply in progress.
pub proof fn law_send_then_reply(
    a: App,
    b: App,
    c: App,
    d: App,
    effects: Seq<Seq<Effect>>,
    input: Seq<char>,
    token: String,
    done: ApiEvent,
)
    requires
        effects.len() == 6,
        trim(input).len() > 0,
        a.chat.current_model is Some,
        token@.len() > 0,
        done is ChatDone,
        send_post(a, b, effects[0], effects[1], input),
        event_post(b, c, effects[2], effects[3], ApiEvent::ChatToken(token)),
        event_post(c, d, effects[4], effects[5], done),
    ensures
        d.chat.messages@.len() == a.chat.messages@.len() + 2,
        d.chat.messages@.subrange(0, a.chat.messages@.len() as int) == a.chat.messages@,
        d.chat.messages@[a.chat.messages@.len() as int].role@ == "user"@,
        d.chat.messages@[a.chat.messages@.len() as int].content@ == trim(input),
        d.chat.messages@[a.chat.messages@.len() as int + 1].role@ == "assistant"@,
        d.chat.messages@[a.chat.messages@.len() as int + 1].content@ == token@,
        !d.chat.is_streaming,
{
    let n = a.chat.messages@.len();
    assert(c.chat.messages == b.chat.messages);
    assert(c.chat.streaming_buffer@ == token@);
    assert(d.chat.messages@.drop_last() == b.chat.messages@);
    assert(b.chat.messages@.drop_last() == a.chat.messages@);
    assert(d.chat.messages@.subrange(0, n as int) =~= b.chat.messages@.drop_last());
    assert(d.chat.messages@[n as int] == b.chat.messages@.last());
}

impl App {
    fn on_chat_token(&mut self, token: String, effects: &mut Vec<Effect>)
        ensures
            keeps_limits(*old(self), *final(self)),
            event_post(*old(self), *final(self), old(effects)@, final(effects)@, ApiEvent::ChatToken(token)),
    {
        let mut buf = String::new();
        std::mem::swap(&mut buf, &mut self.chat.streaming_buffer);
        buf.append(token.as_str());
        self.chat.streaming_buffer = buf;
    }

    fn on_chat_done(
        &mut self,
        eval_count: Option<u64>,
        eval_duration: Option<u64>,
        total_duration: Option<u64>,
        effects: &mut Vec<Effect>,
    )
        ensures
            keeps_limits(*old(self), *final(self)),
            event_post(
                *old(self),
                *final(self),
                old(effects)@,
                final(effects)@,
                ApiEvent::ChatDone { eval_count, eval_duration, total_duration },
            ),
    {
        if !self.chat.streaming_buffer.as_str().is_empty() {
            let mut content = String::new();
            std::mem::swap(&mut content, &mut self.chat.streaming_buffer);
            let ghost before = self.chat.messages@;
            self.chat.messages.push(ChatMessage { role: "assistant".to_string(), content });
            assert(self.chat.messages@.drop_last() =~= before);
        }
        self.chat.is_streaming = false;
        if let (Some(ec), Some(ed), Some(td)) = (eval_count, eval_duration, total_duration) {
            self.chat.last_stats = Some(
                ChatStats { eval_count: ec, eval_duration: ed, total_duration: td },
            );
        }
    }

    fn on_chat_error(&mut self, err: String, effects: &mut Vec<Effect>)
        ensures
            keeps_limits(*old(self), *final(self)),
            event_post(*old(self), *final(self), old(effects)@, final(effects)@, ApiEvent::ChatError(err)),
    {
        self.chat.is_streaming = false;
        self.chat.streaming_buffer = String::new();
        self.set_status(concat2("Chat error: ", err.as_str()));
    }

    fn on_models_loaded(&mut self, models: Vec<ModelInfo>, effects: &mut Vec<Effect>)
        ensures
            event_post(*old(self), *final(self), old(effects)@, final(effects)@, ApiEvent::ModelsLoaded(models)),
            models@.len() <= max_pos() ==> keeps_limits(*old(self), *final(self)),
    {
        let n = models.len();
        let first = if n > 0 {
            Some(models[0].name.clone())
        } else {
            None
        };
        self.models.models = models;
        self.models.loading = false;
        if self.models.selected.is_none() && n > 0 {
            self.models.selected = Some(0);
        }
        if self.chat.current_model.is_none() && n > 0 {
            self.chat.current_model = first;
        }
    }

    fn on_running_loaded(&mut self, models: Vec<RunningModel>, effects: &mut Vec<Effect>)
        ensures
            event_post(*old(self), *final(self), old(effects)@, final(effects)@, ApiEvent::RunningModelsLoaded(models)),
            models@.len() <= max_pos() ==> keeps_limits(*old(self), *final(self)),
    {
        let n = models.len();
        self.running.models = models;
        self.running.loading = false;
        if self.running.selected.is_none() && n > 0 {
            self.running.selected = Some(0);
        }
    }

    fn on_pull_progress(
        &mut self,
        status: String,
        digest: Option<String>,
        total: Option<u64>,
        completed: Option<u64>,
        effects: &mut Vec<Effect>,
    )
        ensures
            keeps_limits(*old(self), *final(self)),
            event_post(
                *old(self),
                *final(self),
                old(effects)@,
                final(effects)@,
                ApiEvent::PullProgress { status, digest, total, completed },
            ),
    {
        let pull = self.pull.take();
        match pull {
            None => {},
            Some(p) => {
                let mut layers = p.layers;
                match (digest, total, completed) {
                    (Some(d), Some(t), Some(c)) => record_layer(&mut layers, d, t, c),
                    _ => {},
                }
                self.pull = Some(
                    PullState {
                        model_name: p.model_name,
                        status,
                        layers,
                        is_complete: p.is_complete,
                    },
                );
            },
        }
    }

    fn on_pull_complete(&mut self, name: String, effects: &mut Vec<Effect>)
        ensures
            keeps_limits(*old(self), *final(self)),
            event_post(*old(self), *final(self), old(effects)@, final(effects)@, ApiEvent::PullComplete(name)),
    {
        let pull = self.pull.take();
        match pull {
            None => {},
            Some(p) => {
                self.pull = Some(PullState { status: "success".to_string(), is_complete: true, ..p });
            },
        }
        self.set_status(concat3("Model '", name.as_str(), "' pulled successfully"));
        self.fetch_models(effects);
    }

    fn on_pull_error(&mut self, err: String, effects: &mut Vec<Effect>)
        ensures
            keeps_limits(*old(self), *final(self)),
            event_post(*old(self), *final(self), old(effects)@, final(effects)@, ApiEvent::PullError(err)),
    {
        let pull = self.pull.take();
        match pull {
            None => {},
            Some(p) => {
                self.pull = Some(
                    PullState { status: concat2("Error: ", err.as_str()), is_complete: true, ..p },
                );
            },
        }
        self.set_status(concat2("Pull failed: ", err.as_str()));
    }

    /// Applies a reply from the server.
    pub fn handle_api_event(&mut self, event: ApiEvent, effects: &mut Vec<Effect>)
        ensures
            event_post(*old(self), *final(self), old(effects)@, final(effects)@, event),
            event_within_limits(event) ==> keeps_limits(*old(self), *final(self)),
    {
        match event {
            ApiEvent::ChatToken(token) => self.on_chat_token(token, effects),
            ApiEvent::ChatDone { eval_count, eval_duration, total_duration } => self.on_chat_done(
                eval_count,
                eval_duration,
                total_duration,
                effects,
            ),
            ApiEvent::ChatError(err) => self.on_chat_error(err, effects),
            ApiEvent::ModelsLoaded(models) => self.on_models_loaded(models, effects),
            ApiEvent::RunningModelsLoaded(models) => self.on_running_loaded(models, effects),
            ApiEvent::ModelDetailLoaded { name, response } => {
                self.model_detail = Some(ModelDetailState { name, response, scroll_offset: 0 });
                self.status_message = None;
            },
            ApiEvent::ModelDeleted(name) => {
                self.set_status(concat3("Model '", name.as_str(), "' deleted"));
                self.fetch_models(effects);
            },
            ApiEvent::ModelUnloaded(name) => {
                self.set_status(concat3("Model '", name.as_str(), "' unloaded"));
                self.fetch_running(effects);
            },
            ApiEvent::ModelCopied { source, destination } => {
                self.set_status(
                    concat5("Copied '", source.as_str(), "' -> '", destination.as_str(), "'"),
                );
                self.fetch_models(effects);
            },
            ApiEvent::PullProgress { status, digest, total, completed } => self.on_pull_progress(
                status,
                digest,
                total,
                completed,
                effects,
            ),
            ApiEvent::PullComplete(name) => self.on_pull_complete(name, effects),
            ApiEvent::PullError(err) => self.on_pull_error(err, effects),
            ApiEvent::ConnectionStatus(connected) => {
                self.connected = connected;
            },
            ApiEvent::Error(err) => {
                self.set_status(err);
            },
        }
    }
}

/// The events that one line of a streamed chat reply produces, and whether
/// the stream ends there: an error ends it with `ChatError`; non-empty
/// message text gives a `ChatToken`; `done` ends it with `ChatDone`.
pub open spec fn chat_chunk_post(chunk: ChatResponse, events: Seq<ApiEvent>, stop: bool) -> bool {
    match chunk.error {
        Some(err) => events == seq![ApiEvent::ChatError(err)] && stop,
        None => {
            let token: Seq<ApiEvent> = match chunk.message {
                Some(m) => if m.content@.len() > 0 {
                    seq![ApiEvent::ChatToken(m.content)]
                } else {
                    seq![]
                },
                None => seq![],
            };
            if chunk.done == Some(true) {
                &&& stop
                &&& events == token.push(
                    ApiEvent::ChatDone {
                        eval_count: chunk.eval_count,
                        eval_duration: chunk.eval_duration,
                        total_duration: chunk.total_duration,
                    },
                )
            } else {
                !stop && events == token
            }
        },
    }
}

pub fn chat_chunk_events(chunk: ChatResponse) -> (r: (Vec<ApiEvent>, bool))
    ensures
        chat_chunk_post(chunk, r.0@, r.1),
{
    let ghost c = chunk;
    let mut events: Vec<ApiEvent> = Vec::new();
    match chunk.error {
        Some(err) => {
            events.push(ApiEvent::ChatError(err));
            assert(events@ =~= seq![ApiEvent::ChatError(c.error.unwrap())]);
            return (events, true);
        },
        None => {},
    }
    match chunk.message {
        Some(m) => {
            if !m.content.as_str().is_empty() {
                events.push(ApiEvent::ChatToken(m.content));
            }
        },
        None => {},
    }
    if chunk.done == Some(true) {
        events.push(
            ApiEvent::ChatDone {
                eval_count: chunk.eval_count,
                eval_duration: chunk.eval_duration,
                total_duration: chunk.total_duration,
            },
        );
        (events, true)
    } else {
        (events, false)
    }
}

/// The events that one line of a streamed pull reply produces, and whether
/// the stream ends there: an error ends it with `PullError`; otherwise a
/// `PullProgress` with the status (empty when absent), followed, when the
/// status is "success", by `PullComplete` for `model`, which ends it.
pub open spec fn pull_chunk_post(
    chunk: ProgressResponse,
    model: Seq<char>,
    events: Seq<ApiEvent>,
    stop: bool,
) -> bool {
    match chunk.error {
        Some(err) => events == seq![ApiEvent::PullError(err)] && stop,
        None => {
            let status: Seq<char> = match chunk.status {
                Some(s) => s@,
                None => seq![],
            };
            &&& events.len() >= 1
            &&& events[0] matches ApiEvent::PullProgress { status: s, digest, total, completed }
                && s@ == status && digest == chunk.digest && total == chunk.total && completed
                == chunk.completed
            &&& if status == "success"@ {
                &&& stop
                &&& events.len() == 2
                &&& events[1] matches ApiEvent::PullComplete(n) && n@ == model
            } else {
                !stop && events.len() == 1
            }
        },
    }
}

pub fn pull_chunk_events(chunk: ProgressResponse, model: &str) -> (r: (Vec<ApiEvent>, bool))
    ensures
        pull_chunk_post(chunk, model@, r.0@, r.1),
{
    let ghost c = chunk;
    let mut events: Vec<ApiEvent> = Vec::new();
    match chunk.error {
        Some(err) => {
            events.push(ApiEvent::PullError(err));
            assert(events@ =~= seq![ApiEvent::PullError(c.error.unwrap())]);
            return (events, true);
        },
        None => {},
    }
    let status = match chunk.status {
        Some(s) => s,
        None => String::new(),
    };
    let success = str_eq(status.as_str(), "success");
    events.push(
        ApiEvent::PullProgress {
            status,
            digest: chunk.digest,
            total: chunk.total,
            completed: chunk.completed,
        },
    );
    if success {
        events.push(ApiEvent::PullComplete(model.to_owned()));
        (events, true)
    } else {
        (events, false)
    }
}

} // verus!
