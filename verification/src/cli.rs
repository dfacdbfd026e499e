//! Decisions of the command-line front end: which argument supplies a
//! value, what a line typed in an interactive chat means, and how one line
//! of a streamed reply is handled.

use vstd::prelude::*;
use crate::api::ChatMessage;
use crate::config_cmd::ConfigAction;
use crate::config::opt_view;
use crate::numfmt::{format_param_count, param_count_text};
use crate::text::{concat2, decimal, decimal_string, str_eq, trim, trimmed};

verus! {

/// The command line: an optional URL that overrides the configured one,
/// and the command to run.
pub struct Cli {
    pub url: Option<String>,
    pub command: Commands,
}

/// The commands of the tool and their arguments.
pub enum Commands {
    List,
    Library { sort: String, search: Option<String>, limit: usize, verbose: bool },
    Ps,
    Pull { model: String },
    Remove { model: String },
    Unload { model: String },
    Show { model: String, verbose: bool },
    Copy { source: String, destination: String },
    Create {
        name: Option<String>,
        from: Option<String>,
        modelfile: Option<String>,
        json_file: Option<String>,
        quantize: Option<String>,
        no_stream: bool,
    },
    Push { model: String, insecure: bool, no_stream: bool },
    Generate(GenerateArgs),
    Chat(ChatArgs),
    Embed(EmbedArgs),
    Benchmark { models: Vec<String>, prompt: Option<String>, rounds: u32, csv: bool, no_unload: bool },
    Config { action: Option<ConfigAction> },
    Tui,
}

/// The arguments of `create`.
pub struct CreateArgs {
    pub name: Option<String>,
    pub from: Option<String>,
    pub modelfile: Option<String>,
    pub json_file: Option<String>,
    pub quantize: Option<String>,
    pub no_stream: bool,
}

/// The arguments of `generate`.
pub struct GenerateArgs {
    pub pos_model: Option<String>,
    pub pos_prompt: Option<String>,
    pub flag_model: Option<String>,
    pub flag_prompt: Option<String>,
    pub system: Option<String>,
    pub file: Option<String>,
    pub no_stream: bool,
    pub format: Option<String>,
    pub options: Option<String>,
    pub template: Option<String>,
    pub context: Option<String>,
    pub raw: bool,
}

/// The arguments of `chat`.
pub struct ChatArgs {
    pub pos_model: Option<String>,
    pub pos_message: Option<String>,
    pub flag_model: Option<String>,
    pub interactive: bool,
    pub system: Option<String>,
    pub message: Option<String>,
    pub file: Option<String>,
    pub no_stream: bool,
    pub format: Option<String>,
    pub options: Option<String>,
}

/// The arguments of `embed`.
pub struct EmbedArgs {
    pub pos_model: Option<String>,
    pub pos_input: Option<String>,
    pub flag_model: Option<String>,
    pub flag_input: Option<String>,
    pub file: Option<String>,
    pub no_truncate: bool,
    pub options: Option<String>,
}

/// A required argument that is missing.
#[derive(Debug, Clone, Copy, PartialEq, Eq, Structural)]
pub enum CliError {
    ModelRequired,
    MessageRequired,
    PromptRequired,
    InputRequired,
}

impl CliError {
    /// The message shown for the error.
    pub fn message(&self) -> (s: String)
        ensures
            s@ == match *self {
                CliError::ModelRequired => "Model name is required"@,
                CliError::MessageRequired => "Message is required (use --interactive for chat mode, or provide a message)"@,
                CliError::PromptRequired => "Prompt is required"@,
                CliError::InputRequired => "Input text is required"@,
            },
    {
        match self {
            CliError::ModelRequired => "Model name is required".to_string(),
            CliError::MessageRequired => {
                "Message is required (use --interactive for chat mode, or provide a message)".to_string()
            },
            CliError::PromptRequired => "Prompt is required".to_string(),
            CliError::InputRequired => "Input text is required".to_string(),
        }
    }
}

/// The first of two optional values that is given.
pub open spec fn first_given(a: Option<Seq<char>>, b: Option<Seq<char>>) -> Option<Seq<char>> {
    if a is Some {
        a
    } else {
        b
    }
}

/// The model name: the flag's value, else the positional argument's.
pub fn resolve_model(flag: &Option<String>, positional: &Option<String>) -> (r: Result<
    String,
    CliError,
>)
    ensures
        match r {
            Ok(m) => first_given(opt_view(*flag), opt_view(*positional)) == Some(m@),
            Err(e) => first_given(opt_view(*flag), opt_view(*positional)) is None && e
                == CliError::ModelRequired,
        },
{
    match flag {
        Some(f) => Ok(f.clone()),
        None => match positional {
            Some(p) => Ok(p.clone()),
            None => Err(CliError::ModelRequired),
        },
    }
}

/// Where a text argument comes from.
pub enum TextSource {
    /// Given on the command line.
    Text(String),
    /// To be read from the file at this path.
    File(String),
    Missing,
}

/// The source of a text argument: the flag's value, else the positional
/// argument's, else the file named by `file`.
pub fn text_source(flag: &Option<String>, positional: &Option<String>, file: &Option<String>) -> (r:
    TextSource)
    ensures
        match r {
            TextSource::Text(t) => first_given(opt_view(*flag), opt_view(*positional)) == Some(
                t@,
            ),
            TextSource::File(p) => first_given(opt_view(*flag), opt_view(*positional)) is None
                && opt_view(*file) == Some(p@),
            TextSource::Missing => first_given(opt_view(*flag), opt_view(*positional)) is None
                && file is None,
        },
{
    match flag {
        Some(t) => TextSource::Text(t.clone()),
        None => match positional {
            Some(t) => TextSource::Text(t.clone()),
            None => match file {
                Some(p) => TextSource::File(p.clone()),
                None => TextSource::Missing,
            },
        },
    }
}

/// What a line typed in an interactive chat asks for.
pub enum ChatInput {
    /// The input has ended.
    End,
    /// Nothing but blanks: ask again.
    Skip,
    /// `exit`, `quit` or `bye`.
    Quit,
    /// A message to send, without surrounding blanks.
    Send(String),
}

pub open spec fn is_quit_word(t: Seq<char>) -> bool {
    t == "exit"@ || t == "quit"@ || t == "bye"@
}

/// The meaning of the raw line `line` read in an interactive chat (empty
/// when the input has ended).
pub fn chat_input(line: &str) -> (r: ChatInput)
    ensures
        line@.len() == 0 ==> r is End,
        line@.len() > 0 && trim(line@).len() == 0 ==> r is Skip,
        line@.len() > 0 && trim(line@).len() > 0 && is_quit_word(trim(line@)) ==> r is Quit,
        line@.len() > 0 && trim(line@).len() > 0 && !is_quit_word(trim(line@)) ==> (r matches ChatInput::Send(m) && m@ == trim(line@)),
{
    if line.is_empty() {
        return ChatInput::End;
    }
    let t = trimmed(line);
    if t.as_str().is_empty() {
        ChatInput::Skip
    } else if str_eq(t.as_str(), "exit") || str_eq(t.as_str(), "quit") || str_eq(
        t.as_str(),
        "bye",
    ) {
        ChatInput::Quit
    } else {
        ChatInput::Send(t)
    }
}

pub open spec fn messages_view(v: Seq<ChatMessage>) -> Seq<(Seq<char>, Seq<char>)> {
    v.map_values(|m: ChatMessage| (m.role@, m.content@))
}

/// A message with the given role.
pub fn message(role: &str, content: String) -> (m: ChatMessage)
    ensures
        m.role@ == role@,
        m.content == content,
{
    ChatMessage { role: role.to_string(), content }
}

/// The start of a conversation: the system prompt, where there is one.
pub fn conversation_start(system: &Option<String>) -> (r: Vec<ChatMessage>)
    ensures
        messages_view(r@) == match *system {
            Some(s) => seq![("system"@, s@)],
            None => Seq::<(Seq<char>, Seq<char>)>::empty(),
        },
{
    let mut r: Vec<ChatMessage> = Vec::new();
    if let Some(s) = system {
        r.push(message("system", s.clone()));
    }
    assert(messages_view(r@) =~= match *system {
        Some(s) => seq![("system"@, s@)],
        None => Seq::<(Seq<char>, Seq<char>)>::empty(),
    });
    r
}

/// Adds a message at the end of a conversation.
pub fn add_message(messages: &mut Vec<ChatMessage>, role: &str, content: String)
    ensures
        messages_view(final(messages)@) == messages_view(old(messages)@).push((role@, content@)),
{
    let ghost before = messages_view(messages@);
    messages.push(message(role, content));
    assert(messages_view(messages@) =~= before.push((role@, content@)));
}

/// What to do with one line of a streamed reply.
pub struct ReplyStep {
    /// The server reported this error: stop.
    pub failure: Option<String>,
    /// Text to show.
    pub text: Option<String>,
    /// The reply is complete.
    pub finished: bool,
}

/// How one line of a streamed reply is handled: an error stops the reply
/// and nothing else of that line is shown; otherwise its text is shown, and
/// `done` marks the end.
pub fn reply_step(error: &Option<String>, text: &Option<String>, done: Option<bool>) -> (r:
    ReplyStep)
    ensures
        opt_view(r.failure) == opt_view(*error),
        error is Some ==> r.text is None && !r.finished,
        error is None ==> opt_view(r.text) == opt_view(*text) && r.finished == (done
            == Some(true)),
{
    match error {
        Some(e) => ReplyStep { failure: Some(e.clone()), text: None, finished: false },
        None => ReplyStep {
            failure: None,
            text: match text {
                Some(t) => Some(t.clone()),
                None => None,
            },
            finished: match done {
                Some(d) => d,
                None => false,
            },
        },
    }
}

/// What `show` prints of a model's information, line by line: its name,
/// architecture, parameter count, quantization version and file type,
/// each where the server reported it.
pub open spec fn summary_lines(
    name: Option<Seq<char>>,
    architecture: Option<Seq<char>>,
    parameter_count: Option<u64>,
    quantization_version: Option<u64>,
    file_type: Option<u64>,
) -> Seq<Seq<char>> {
    (match name {
        Some(n) => seq!["Model: "@ + n],
        None => seq![],
    }) + (match architecture {
        Some(a) => seq!["Architecture: "@ + a],
        None => seq![],
    }) + (match parameter_count {
        Some(p) => seq!["Parameters: "@ + param_count_text(p as nat)],
        None => seq![],
    }) + (match quantization_version {
        Some(q) => seq!["Quantization Version: "@ + decimal(q as nat)],
        None => seq![],
    }) + (match file_type {
        Some(f) => seq!["File Type: "@ + decimal(f as nat)],
        None => seq![],
    })
}

fn push_text(out: &mut Vec<String>, s: String)
    ensures
        final(out)@.map_values(|x: String| x@) == old(out)@.map_values(|x: String| x@).push(s@),
{
    let ghost before = out@.map_values(|x: String| x@);
    out.push(s);
    assert(out@.map_values(|x: String| x@) =~= before.push(s@));
}

/// The lines that `show` prints of a model's information.
pub fn model_summary(
    name: &Option<String>,
    architecture: &Option<String>,
    parameter_count: Option<u64>,
    quantization_version: Option<u64>,
    file_type: Option<u64>,
) -> (r: Vec<String>)
    ensures
        r@.map_values(|x: String| x@) == summary_lines(
            opt_view(*name),
            opt_view(*architecture),
            parameter_count,
            quantization_version,
            file_type,
        ),
{
    let mut out: Vec<String> = Vec::new();
    let ghost e = Seq::<Seq<char>>::empty();
    assert(out@.map_values(|x: String| x@) =~= e);
    if let Some(n) = name {
        push_text(&mut out, concat2("Model: ", n.as_str()));
    }
    if let Some(a) = architecture {
        push_text(&mut out, concat2("Architecture: ", a.as_str()));
    }
    if let Some(p) = parameter_count {
        let text = format_param_count(p);
        push_text(&mut out, concat2("Parameters: ", text.as_str()));
    }
    if let Some(q) = quantization_version {
        let text = decimal_string(q);
        push_text(&mut out, concat2("Quantization Version: ", text.as_str()));
    }
    if let Some(f) = file_type {
        let text = decimal_string(f);
        push_text(&mut out, concat2("File Type: ", text.as_str()));
    }
    assert(out@.map_values(|x: String| x@) =~= summary_lines(
        opt_view(*name),
        opt_view(*architecture),
        parameter_count,
        quantization_version,
        file_type,
    ));
    out
}

} // verus!
