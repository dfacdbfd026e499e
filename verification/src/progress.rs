//! How the progress lines of a model download or upload are shown.
//!
//! The server streams lines with an optional status, layer digest, byte
//! counts and error; these functions decide what each line shows.

use vstd::prelude::*;
use vstd::utf8::{decode_utf8, encode_utf8, is_char_boundary};
use vstd::string::StringSliceAdditionalSpecFns;
use crate::api::ProgressResponse;
use crate::config::opt_view;
use crate::text::{concat2, has_prefix, starts_with, str_eq};

verus! {

/// The short name of a layer: bytes 7 to 14 of its digest (the part after
/// `sha256:`) where the digest is longer than 15 bytes, else the whole digest.
pub open spec fn short_id(digest: Seq<char>) -> Seq<char> {
    if encode_utf8(digest).len() > 15 {
        decode_utf8(encode_utf8(digest).subrange(7, 15))
    } else {
        digest
    }
}

/// The short name of the layer with digest `digest`. A digest longer than 15
/// bytes is cut at bytes 7 and 15, which must fall on character boundaries
/// (they do in every `sha256:` digest).
pub fn short_layer_id(digest: &str) -> (r: String)
    requires
        encode_utf8(digest@).len() > 15 ==> is_char_boundary(encode_utf8(digest@), 7)
            && is_char_boundary(encode_utf8(digest@), 15),
    ensures
        r@ == short_id(digest@),
{
    broadcast use vstd::utf8::encode_utf8_decode_utf8;
    if digest.as_bytes().len() > 15 {
        let (head, _) = digest.split_at(15);
        proof {
            let b = encode_utf8(digest@);
            vstd::utf8::encode_utf8_valid_utf8(digest@);
            vstd::utf8::valid_utf8_split(b, 15);
            assert(head.spec_bytes() == b.subrange(0, 15));
            vstd::utf8::is_char_boundary_iff_not_is_continuation_byte(b, 7);
            vstd::utf8::is_char_boundary_iff_not_is_continuation_byte(head.spec_bytes(), 7);
        }
        let (_, mid) = head.split_at(7);
        assert(mid.spec_bytes() == encode_utf8(digest@).subrange(7, 15));
        assert(encode_utf8(mid@) == mid.spec_bytes());
        assert(mid@ == decode_utf8(encode_utf8(mid@)));
        mid.to_string()
    } else {
        digest.to_string()
    }
}

/// What a status line of a download shows on the command line.
pub enum PullStatus {
    /// A spinner with this message.
    Spinner(String),
    /// The download succeeded.
    Success,
    /// Nothing (a per-layer status, or an empty one).
    Quiet,
}

pub open spec fn pull_status_spinner(status: Seq<char>) -> Option<Seq<char>> {
    if status == "pulling manifest"@ {
        Some("📋 Pulling manifest..."@)
    } else if status == "verifying sha256 digest"@ {
        Some("🔍 Verifying integrity..."@)
    } else if status == "writing manifest"@ {
        Some("📝 Writing manifest..."@)
    } else if status == "removing any unused layers"@ {
        Some("🧹 Cleaning up unused layers..."@)
    } else if status == "success"@ || has_prefix(status, "pulling"@) || status.len() == 0 {
        None
    } else {
        Some("📌 "@ + status)
    }
}

/// What the status `status` of a download shows: a spinner for each known
/// stage and for any other non-empty status except the per-layer
/// "pulling ..." ones, and success for "success".
pub fn pull_status(status: &str) -> (r: PullStatus)
    ensures
        status@ == "success"@ ==> r is Success,
        status@ != "success"@ ==> match r {
            PullStatus::Spinner(m) => pull_status_spinner(status@) == Some(m@),
            PullStatus::Success => false,
            PullStatus::Quiet => pull_status_spinner(status@) is None,
        },
{
    proof {
        reveal_strlit("success");
        reveal_strlit("pulling manifest");
        reveal_strlit("verifying sha256 digest");
        reveal_strlit("writing manifest");
        reveal_strlit("removing any unused layers");
        reveal_strlit("pulling");
        assert("success"@.len() == 7);
        assert("pulling manifest"@.len() == 16);
        assert("verifying sha256 digest"@.len() == 23);
        assert("writing manifest"@.len() == 16);
        assert("removing any unused layers"@.len() == 26);
    }
    if str_eq(status, "pulling manifest") {
        PullStatus::Spinner("📋 Pulling manifest...".to_string())
    } else if str_eq(status, "verifying sha256 digest") {
        PullStatus::Spinner("🔍 Verifying integrity...".to_string())
    } else if str_eq(status, "writing manifest") {
        PullStatus::Spinner("📝 Writing manifest...".to_string())
    } else if str_eq(status, "removing any unused layers") {
        PullStatus::Spinner("🧹 Cleaning up unused layers...".to_string())
    } else if str_eq(status, "success") {
        PullStatus::Success
    } else if starts_with(status, "pulling") || status.is_empty() {
        PullStatus::Quiet
    } else {
        PullStatus::Spinner(concat2("📌 ", status))
    }
}

/// The progress of one layer.
pub struct LayerProgress {
    pub digest: String,
    pub total: u64,
    pub completed: u64,
}

/// What one progress line of a download or upload means.
pub enum ProgressStep {
    /// The server reported an error: the transfer failed.
    Failed(String),
    /// Byte counts of a layer.
    Layer(LayerProgress),
    /// A status without byte counts.
    Status(String),
    /// Nothing to show.
    Nothing,
}

/// Whether a progress line carries the byte counts of a layer.
pub open spec fn has_layer_counts(p: ProgressResponse) -> bool {
    &&& p.digest is Some
    &&& p.total is Some
    &&& p.completed is Some
    &&& p.total->0 > 0
}

/// The meaning of one progress line: an error first; then the byte counts
/// of a layer, where the line has a digest, a positive total and a
/// completed count; else its status, where it has one.
pub fn progress_step(p: &ProgressResponse) -> (r: ProgressStep)
    ensures
        p.error is Some ==> (r matches ProgressStep::Failed(e) && Some(e@) == opt_view(p.error)),
        p.error is None && has_layer_counts(*p) ==> (r matches ProgressStep::Layer(l) && Some(
            l.digest@,
        ) == opt_view(p.digest) && Some(l.total) == p.total && Some(l.completed)
            == p.completed),
        p.error is None && !has_layer_counts(*p) && p.status is Some ==> (r matches ProgressStep::Status(
            s,
        ) && Some(s@) == opt_view(p.status)),
        p.error is None && !has_layer_counts(*p) && p.status is None ==> r is Nothing,
{
    if let Some(e) = &p.error {
        return ProgressStep::Failed(e.clone());
    }
    match (&p.digest, p.total, p.completed) {
        (Some(d), Some(total), Some(completed)) => {
            if total > 0 {
                return ProgressStep::Layer(
                    LayerProgress { digest: d.clone(), total, completed },
                );
            }
        },
        _ => {},
    }
    match &p.status {
        Some(s) => ProgressStep::Status(s.clone()),
        None => ProgressStep::Nothing,
    }
}

/// Whether a layer's transfer is complete: its bar is then finished.
pub fn layer_done(l: &LayerProgress) -> (r: bool)
    ensures
        r == (l.completed >= l.total),
{
    l.completed >= l.total
}

/// The line that an upload prints for the status `status`, if any.
pub fn push_status(status: &str) -> (r: Option<String>)
    ensures
        status@ == "pushing manifest"@ ==> opt_view(r) == Some("📋 Pushing manifest..."@),
        status@ != "pushing manifest"@ && status@.len() > 0 ==> opt_view(r) == Some(
            "📌 "@ + status@,
        ),
        status@.len() == 0 ==> r is None,
{
    proof {
        reveal_strlit("pushing manifest");
    }
    if str_eq(status, "pushing manifest") {
        Some("📋 Pushing manifest...".to_string())
    } else if status.is_empty() {
        None
    } else {
        Some(concat2("📌 ", status))
    }
}

/// The closing line of a download of `model`.
pub fn pull_summary(model: &str, succeeded: bool) -> (s: String)
    ensures
        succeeded ==> s@ == "✅ Model "@ + model@ + " is ready to use!"@,
        !succeeded ==> s@ == "ℹ️  Model "@ + model@ + " is available (may have been already downloaded)"@,
{
    if succeeded {
        crate::text::concat3("✅ Model ", model, " is ready to use!")
    } else {
        crate::text::concat3(
            "ℹ️  Model ",
            model,
            " is available (may have been already downloaded)",
        )
    }
}

/// The status text shown in the download window of the terminal interface.
pub open spec fn display_status(status: Seq<char>) -> Seq<char> {
    if status == "pulling manifest"@ {
        "Pulling manifest..."@
    } else if status == "verifying sha256 digest"@ {
        "Verifying integrity..."@
    } else if status == "writing manifest"@ {
        "Writing manifest..."@
    } else if status == "removing any unused layers"@ {
        "Cleaning up unused layers..."@
    } else if status == "success"@ {
        "Pull complete!"@
    } else if has_prefix(status, "pulling "@) {
        "Downloading layers..."@
    } else {
        status
    }
}

/// The status text of the download window for the server status `status`.
pub fn pull_display_status(status: &str) -> (s: String)
    ensures
        s@ == display_status(status@),
{
    if str_eq(status, "pulling manifest") {
        "Pulling manifest...".to_string()
    } else if str_eq(status, "verifying sha256 digest") {
        "Verifying integrity...".to_string()
    } else if str_eq(status, "writing manifest") {
        "Writing manifest...".to_string()
    } else if str_eq(status, "removing any unused layers") {
        "Cleaning up unused layers...".to_string()
    } else if str_eq(status, "success") {
        "Pull complete!".to_string()
    } else if starts_with(status, "pulling ") {
        "Downloading layers...".to_string()
    } else {
        status.to_string()
    }
}

/// The animation frames of the download window's spinner.
pub open spec fn spinner_frames() -> Seq<Seq<char>> {
    seq!["⠋ "@, "⠙ "@, "⠹ "@, "⠸ "@, "⠼ "@, "⠴ "@, "⠦ "@, "⠧ "@, "⠇ "@, "⠏ "@]
}

/// The mark before the status in the download window: a spinner frame
/// chosen by the tick count while it runs, then a tick or a cross.
pub open spec fn status_mark(complete: bool, succeeded: bool, tick: u64) -> Seq<char> {
    if !complete {
        spinner_frames()[(tick % 10) as int]
    } else if succeeded {
        "✓ "@
    } else {
        "✗ "@
    }
}

/// The mark before the status in the download window; `succeeded` says
/// whether the last status was "success".
pub fn pull_status_mark(complete: bool, succeeded: bool, tick: u64) -> (s: String)
    ensures
        s@ == status_mark(complete, succeeded, tick),
{
    if !complete {
        let k = tick % 10;
        if k == 0 {
            "⠋ ".to_string()
        } else if k == 1 {
            "⠙ ".to_string()
        } else if k == 2 {
            "⠹ ".to_string()
        } else if k == 3 {
            "⠸ ".to_string()
        } else if k == 4 {
            "⠼ ".to_string()
        } else if k == 5 {
            "⠴ ".to_string()
        } else if k == 6 {
            "⠦ ".to_string()
        } else if k == 7 {
            "⠧ ".to_string()
        } else if k == 8 {
            "⠇ ".to_string()
        } else {
            "⠏ ".to_string()
        }
    } else if succeeded {
        "✓ ".to_string()
    } else {
        "✗ ".to_string()
    }
}

} // verus!
