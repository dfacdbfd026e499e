//! Decisions of the HTTP client: the message of a failed request and the
//! handling of each line of a streamed reply.

use vstd::prelude::*;
use crate::config::opt_view;
use crate::text::{concat2, concat3, trim, trimmed};

verus! {

/// The server's own message where its error body could be read, else the body.
pub open spec fn server_message(body: Seq<char>, parsed: Option<Seq<char>>) -> Seq<char> {
    match parsed {
        Some(m) => m,
        None => body,
    }
}

/// The message of a failed request: "Not found" for status 404, "Bad
/// request" for 400, else the status line.
pub open spec fn request_error(status: u16, status_text: Seq<char>, msg: Seq<char>) -> Seq<char> {
    if status == 404 {
        "Not found: "@ + msg
    } else if status == 400 {
        "Bad request: "@ + msg
    } else {
        "HTTP "@ + status_text + ": "@ + msg
    }
}

/// The message of a request that failed with `status` (shown as
/// `status_text`, such as "500 Internal Server Error"); `body` is the reply
/// body and `parsed` the `error` field read from it, where it could be.
pub fn error_message(status: u16, status_text: &str, body: &str, parsed: Option<String>) -> (s:
    String)
    ensures
        s@ == request_error(status, status_text@, server_message(body@, opt_view(parsed))),
{
    let msg = match parsed {
        Some(m) => m,
        None => body.to_string(),
    };
    if status == 404 {
        concat2("Not found: ", msg.as_str())
    } else if status == 400 {
        concat2("Bad request: ", msg.as_str())
    } else {
        let head = concat3("HTTP ", status_text, ": ");
        concat2(head.as_str(), msg.as_str())
    }
}

/// The message of a streamed request that the server refused: always the
/// status line.
pub fn stream_error_message(status_text: &str, body: &str, parsed: Option<String>) -> (s: String)
    ensures
        s@ == "HTTP "@ + status_text@ + ": "@ + server_message(body@, opt_view(parsed)),
{
    let msg = match parsed {
        Some(m) => m,
        None => body.to_string(),
    };
    let head = concat3("HTTP ", status_text, ": ");
    concat2(head.as_str(), msg.as_str())
}

/// The message of a command whose request the server refused, such as
/// "Failed to copy model (HTTP 404 Not Found): ...".
pub fn refusal_message(what: &str, status_text: &str, detail: &str) -> (s: String)
    ensures
        s@ == what@ + " (HTTP "@ + status_text@ + "): "@ + detail@,
{
    let head = concat3(what, " (HTTP ", status_text);
    concat3(head.as_str(), "): ", detail)
}

/// What to do with one line of a streamed reply.
#[derive(Debug, Clone, Copy, PartialEq, Eq, Structural)]
pub enum LineAction {
    /// The stream has ended.
    End,
    /// A blank line: read the next one.
    Skip,
    /// A line to read as JSON.
    Parse,
}

/// The handling of the next line of a streamed reply (`None` at its end).
pub fn line_action(line: Option<&str>) -> (a: LineAction)
    ensures
        a == match line {
            None => LineAction::End,
            Some(l) => if trim(l@).len() == 0 {
                LineAction::Skip
            } else {
                LineAction::Parse
            },
        },
{
    match line {
        None => LineAction::End,
        Some(l) => {
            let t = trimmed(l);
            if t.as_str().is_empty() {
                LineAction::Skip
            } else {
                LineAction::Parse
            }
        },
    }
}

} // verus!
