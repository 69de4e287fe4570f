//! The text form of a record.
//!
//! A record is stored as a JSON object with two members, in this order and
//! without white space between them:
//!
//! ```text
//! {"container_id":"4f1d…","status":"Deploying"}
//! ```
//!
//! The frame around the identifier is this module's own. The identifier itself
//! is written and read as a JSON string literal by `serde_json`.

use crate::error::AgentError;
use crate::record::{same_text, AgentLockfile, ContainerStatus, LockfileView};
use vstd::prelude::*;
use vstd::string::StrSliceExecFns;
use vstd::string::StringExecFns;

verus! {

/// The JSON text that `serde_json::to_string` gives for a string, or `None`
/// where it fails.
pub uninterp spec fn json_string_text(value: Seq<char>) -> Option<Seq<char>>;

/// The string that `serde_json::from_str` reads from a JSON text, or `None`
/// where it rejects the text.
pub uninterp spec fn json_string_value(text: Seq<char>) -> Option<Seq<char>>;

/// The error type of `serde_json`. Nothing is read from it.
#[verifier::external_type_specification]
#[verifier::external_body]
pub struct ExJsonError(serde_json::Error);

/// Calls `serde_json::to_string` on a string slice. Nothing is claimed of
/// the JSON text but that it is the one named `json_string_text`, and of a
/// failure but that `json_string_text` names none: the same string always
/// fares the same.
#[verifier::external_body]
fn json_quote(value: &str) -> (res: Result<String, serde_json::Error>)
    ensures
        match res {
            Ok(text) => json_string_text(value@) == Some(text@),
            Err(_) => json_string_text(value@) is None,
        },
{
    serde_json::to_string(value)
}

/// Calls `serde_json::from_str` for a `String`. Nothing is claimed of the
/// string read but that it is the one named `json_string_value`, and of a
/// refusal but that `json_string_value` names none: the same text always
/// fares the same.
#[verifier::external_body]
fn json_unquote(text: &str) -> (res: Result<String, serde_json::Error>)
    ensures
        match res {
            Ok(value) => json_string_value(text@) == Some(value@),
            Err(_) => json_string_value(text@) is None,
        },
{
    serde_json::from_str::<String>(text)
}

/// What every record text begins with.
pub open spec fn record_prefix() -> Seq<char> {
    "{\"container_id\":"@
}

/// What the text of a record with this status ends with.
pub open spec fn status_suffix(status: ContainerStatus) -> Seq<char> {
    match status {
        ContainerStatus::Running => ",\"status\":\"Running\"}"@,
        ContainerStatus::Deploying => ",\"status\":\"Deploying\"}"@,
    }
}

/// The record text around an identifier that has already been written as a
/// JSON string literal.
pub open spec fn record_text(quoted_id: Seq<char>, status: ContainerStatus) -> Seq<char> {
    record_prefix() + quoted_id + status_suffix(status)
}

/// Whether `text` has the frame of a record with this status.
pub open spec fn framed(text: Seq<char>, status: ContainerStatus) -> bool {
    &&& record_prefix().len() + status_suffix(status).len() <= text.len()
    &&& text.subrange(0, record_prefix().len() as int) == record_prefix()
    &&& text.subrange(text.len() - status_suffix(status).len(), text.len() as int)
        == status_suffix(status)
}

/// What stands inside the frame.
pub open spec fn framed_body(text: Seq<char>, status: ContainerStatus) -> Seq<char> {
    text.subrange(record_prefix().len() as int, text.len() - status_suffix(status).len())
}

/// The record that a text with the frame for `status` holds, if what stands
/// inside the frame is a JSON string literal.
pub open spec fn decode_framed(text: Seq<char>, status: ContainerStatus) -> Option<LockfileView> {
    match json_string_value(framed_body(text, status)) {
        Some(container_id) => Some(LockfileView { container_id, status }),
        None => None,
    }
}

/// The record that a text holds, or `None` where the text is not a record.
pub open spec fn decode_spec(text: Seq<char>) -> Option<LockfileView> {
    if framed(text, ContainerStatus::Running) {
        decode_framed(text, ContainerStatus::Running)
    } else if framed(text, ContainerStatus::Deploying) {
        decode_framed(text, ContainerStatus::Deploying)
    } else {
        None
    }
}

/// The text of a record, or `None` where `serde_json` does not give a string
/// literal for the identifier that reads back as the identifier.
pub open spec fn encode_spec(record: LockfileView) -> Option<Seq<char>> {
    match json_string_text(record.container_id) {
        Some(quoted) => if json_string_value(quoted) == Some(record.container_id) {
            Some(record_text(quoted, record.status))
        } else {
            None
        },
        None => None,
    }
}

fn prefix_text() -> (text: &'static str)
    ensures
        text@ == record_prefix(),
        text@.len() == 16,
{
    proof {
        reveal_strlit("{\"container_id\":");
    }
    "{\"container_id\":"
}

fn suffix_text(status: ContainerStatus) -> (text: &'static str)
    ensures
        text@ == status_suffix(status),
        text@.len() == (if status == ContainerStatus::Running { 20nat } else { 22nat }),
{
    proof {
        reveal_strlit(",\"status\":\"Running\"}");
        reveal_strlit(",\"status\":\"Deploying\"}");
    }
    match status {
        ContainerStatus::Running => ",\"status\":\"Running\"}",
        ContainerStatus::Deploying => ",\"status\":\"Deploying\"}",
    }
}

/// What stands inside the frame for `status`, where `text` has that frame.
fn unframe<'a>(text: &'a str, status: ContainerStatus) -> (body: Option<&'a str>)
    ensures
        body is Some == framed(text@, status),
        body matches Some(b) ==> b@ == framed_body(text@, status),
{
    let prefix = prefix_text();
    let suffix = suffix_text(status);
    let prefix_len: usize = prefix.unicode_len();
    let suffix_len: usize = suffix.unicode_len();
    let len: usize = text.unicode_len();
    if len < prefix_len + suffix_len {
        return None;
    }
    if !same_text(text.substring_char(0, prefix_len), prefix) {
        return None;
    }
    if !same_text(text.substring_char(len - suffix_len, len), suffix) {
        return None;
    }
    Some(text.substring_char(prefix_len, len - suffix_len))
}

/// A text made of the frame for `status` around `quoted_id` has that frame and
/// no other, and the frame holds `quoted_id`.
pub proof fn lemma_frame_holds_body(quoted_id: Seq<char>, status: ContainerStatus)
    ensures
        framed(record_text(quoted_id, status), status),
        framed_body(record_text(quoted_id, status), status) == quoted_id,
        status == ContainerStatus::Deploying ==> !framed(
            record_text(quoted_id, status),
            ContainerStatus::Running,
        ),
{
    reveal_strlit("{\"container_id\":");
    reveal_strlit(",\"status\":\"Running\"}");
    reveal_strlit(",\"status\":\"Deploying\"}");
    let text = record_text(quoted_id, status);
    let suffix = status_suffix(status);
    assert(text.subrange(0, 16) =~= record_prefix());
    assert(text.subrange(text.len() - suffix.len(), text.len() as int) =~= suffix);
    assert(framed_body(text, status) =~= quoted_id);
    if status == ContainerStatus::Deploying {
        let running = status_suffix(ContainerStatus::Running);
        let tail = text.subrange(text.len() - 20, text.len() as int);
        assert(tail[0] == suffix[2]);
        assert(tail[0] != running[0]);
    }
}

/// A text with the frame of a record is made of the frame and of what stands
/// inside it.
pub proof fn lemma_framed_text_shape(text: Seq<char>, status: ContainerStatus)
    requires
        framed(text, status),
    ensures
        text == record_text(framed_body(text, status), status),
{
    let prefix = record_prefix();
    let suffix = status_suffix(status);
    assert(text =~= text.subrange(0, prefix.len() as int) + framed_body(text, status)
        + text.subrange(text.len() - suffix.len(), text.len() as int));
}

impl AgentLockfile {
    /// The text of this record.
    ///
    /// Before the text is handed out, the identifier is read back from its
    /// JSON string literal: a text that would not give this record again is
    /// never returned.
    pub fn encode(&self) -> (res: Result<String, AgentError>)
        ensures
            match res {
                Ok(text) => encode_spec(self@) == Some(text@) && decode_spec(text@) == Some(self@),
                Err(e) => encode_spec(self@) is None && e == AgentError::RecordCorrupt,
            },
    {
        let quoted = match json_quote(self.container_id()) {
            Ok(quoted) => quoted,
            Err(_) => { return Err(AgentError::RecordCorrupt); },
        };
        let read_back = match json_unquote(quoted.as_str()) {
            Ok(value) => value,
            Err(_) => { return Err(AgentError::RecordCorrupt); },
        };
        if !same_text(read_back.as_str(), self.container_id()) {
            return Err(AgentError::RecordCorrupt);
        }
        let mut text = String::from_str(prefix_text());
        text.append(quoted.as_str());
        text.append(suffix_text(self.status()));
        proof {
            lemma_frame_holds_body(quoted@, self@.status);
        }
        Ok(text)
    }

    /// The record that `text` holds. A text that is not a record is refused:
    /// no member of the record is ever made up.
    pub fn decode(text: &str) -> (res: Result<AgentLockfile, AgentError>)
        ensures
            match res {
                Ok(record) => decode_spec(text@) == Some(record@),
                Err(e) => decode_spec(text@) is None && e == AgentError::RecordCorrupt,
            },
    {
        match unframe(text, ContainerStatus::Running) {
            Some(body) => read_framed(body, ContainerStatus::Running),
            None => match unframe(text, ContainerStatus::Deploying) {
                Some(body) => read_framed(body, ContainerStatus::Deploying),
                None => Err(AgentError::RecordCorrupt),
            },
        }
    }
}

/// The record with this status whose identifier is the JSON string literal
/// `body`.
fn read_framed(body: &str, status: ContainerStatus) -> (res: Result<AgentLockfile, AgentError>)
    ensures
        match res {
            Ok(record) => json_string_value(body@) == Some(record@.container_id)
                && record@.status == status,
            Err(e) => json_string_value(body@) is None && e == AgentError::RecordCorrupt,
        },
{
    match json_unquote(body) {
        Ok(container_id) => Ok(AgentLockfile::new(container_id, status)),
        Err(_) => Err(AgentError::RecordCorrupt),
    }
}

/// Writing a record and reading the text back gives the record again.
pub proof fn law_round_trip(record: LockfileView)
    ensures
        encode_spec(record) matches Some(text) ==> decode_spec(text) == Some(record),
{
    if let Some(quoted) = json_string_text(record.container_id) {
        lemma_frame_holds_body(quoted, record.status);
    }
}

/// The closing brace of a record text is its last character, and stands
/// nowhere else in what follows the identifier.
proof fn lemma_brace_ends_suffix(status: ContainerStatus, i: int)
    requires
        0 <= i < status_suffix(status).len(),
    ensures
        status_suffix(status)[i] == '}' <==> i == status_suffix(status).len() - 1,
{
    reveal_strlit(",\"status\":\"Running\"}");
    reveal_strlit(",\"status\":\"Deploying\"}");
    let suffix = status_suffix(status);
    assert(suffix.len() <= 22);
    assert(i == 0 || i == 1 || i == 2 || i == 3 || i == 4 || i == 5 || i == 6 || i == 7 || i == 8
        || i == 9 || i == 10 || i == 11 || i == 12 || i == 13 || i == 14 || i == 15 || i == 16
        || i == 17 || i == 18 || i == 19 || i == 20 || i == 21);
}

/// A record text that was cut short somewhere behind the identifier is
/// refused: with a part of what follows the identifier missing, but not all
/// of it, the text is no record.
pub proof fn law_cut_tail_is_refused(quoted_id: Seq<char>, status: ContainerStatus, kept: int)
    requires
        record_prefix().len() + quoted_id.len() < kept < record_text(quoted_id, status).len(),
    ensures
        decode_spec(record_text(quoted_id, status).subrange(0, kept)) is None,
{
    reveal_strlit(",\"status\":\"Running\"}");
    reveal_strlit(",\"status\":\"Deploying\"}");
    let text = record_text(quoted_id, status);
    let cut = text.subrange(0, kept);
    let at = kept - 1 - record_prefix().len() - quoted_id.len();
    assert(cut[kept - 1] == status_suffix(status)[at]);
    lemma_brace_ends_suffix(status, at);
    assert forall|other: ContainerStatus| !framed(cut, other) by {
        if framed(cut, other) {
            let tail = cut.subrange(cut.len() - status_suffix(other).len(), cut.len() as int);
            let last = status_suffix(other).len() - 1;
            lemma_brace_ends_suffix(other, last);
            assert(tail[last] == cut[kept - 1]);
        }
    }
}

/// Whatever is read from a text stood in the text: the status is the one that
/// the text ends with, and the identifier is the one that the JSON string
/// literal between the frame holds.
pub proof fn law_decode_reads_the_text(text: Seq<char>)
    ensures
        decode_spec(text) matches Some(record) ==> {
            &&& text == record_text(framed_body(text, record.status), record.status)
            &&& json_string_value(framed_body(text, record.status)) == Some(record.container_id)
        },
        !framed(text, ContainerStatus::Running) && !framed(text, ContainerStatus::Deploying)
            ==> decode_spec(text) is None,
{
    if framed(text, ContainerStatus::Running) {
        lemma_framed_text_shape(text, ContainerStatus::Running);
    } else if framed(text, ContainerStatus::Deploying) {
        lemma_framed_text_shape(text, ContainerStatus::Deploying);
    }
}

} // verus!
