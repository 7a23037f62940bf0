//! Standardized responses.
//!
//! A response is a result record — a status, a message, and an optional
//! details payload holding the endpoint id — together with the process
//! exit code and an optional diagnostic line for the error stream. The
//! record is rendered to its one JSON line the moment it is built; the
//! caller's only remaining duties are to print the line, print the
//! diagnostic if there is one, and exit with the code.

use vstd::prelude::*;

use crate::json::escape_char;
use crate::json::escape_seq;
use crate::json::json_line;
use crate::json::json_string;
use crate::json::render_json_line;

verus! {

/// The status of a result record.
#[derive(Clone, Copy, Debug, PartialEq, Eq, Structural)]
pub enum Status {
    Success,
    Error,
}

impl Status {
    /// The word the status serializes to.
    pub open spec fn text(self) -> Seq<char> {
        match self {
            Status::Success => "success"@,
            Status::Error => "error"@,
        }
    }

    /// The word the status serializes to.
    pub fn as_str(&self) -> (r: &'static str)
        ensures
            r@ == self.text(),
    {
        match self {
            Status::Success => "success",
            Status::Error => "error",
        }
    }
}

/// A fully rendered response: what the process must do before it ends.
pub struct Response {
    /// The process exit code.
    pub exit_code: i32,
    /// The one line to write to standard output.
    pub stdout_line: String,
    /// An optional diagnostic line for the error stream.
    pub stderr_line: Option<String>,
}

/// Builds the success response: exit code 0 and a `status="success"`
/// record carrying the message and the optional details payload.
pub fn success_response(message: &str, details: Option<&str>) -> (r: Response)
    ensures
        r.exit_code == 0,
        r.stdout_line@ == json_line(Status::Success.text(), message@, details.deep_view()),
        r.stderr_line is None,
{
    Response {
        exit_code: 0,
        stdout_line: render_json_line(Status::Success.as_str(), message, details),
        stderr_line: None,
    }
}

/// Builds an error response: the given exit code, a `status="error"`
/// record carrying the message and no details, and the optional
/// diagnostic for the error stream.
pub fn error_response(message: &str, exit_code: i32, stderr_message: Option<&str>) -> (r: Response)
    ensures
        r.exit_code == exit_code,
        r.stdout_line@ == json_line(Status::Error.text(), message@, None),
        r.stderr_line.deep_view() == stderr_message.deep_view(),
{
    let stderr_line: Option<String> = match stderr_message {
        Option::Some(m) => Some(String::from_str(m)),
        Option::None => None,
    };
    proof {
        assert(stderr_line.deep_view() =~= stderr_message.deep_view());
    }
    Response {
        exit_code,
        stdout_line: render_json_line(Status::Error.as_str(), message, None),
        stderr_line,
    }
}

/// A sequence with no newline: text that prints as a single line.
pub open spec fn single_line(s: Seq<char>) -> bool {
    forall|i: int| 0 <= i < s.len() ==> s[i] != '\n'
}

/// Escaping one character never yields a newline: a raw newline is
/// rewritten to `\n`, and every other control character to an escape
/// made of ordinary characters.
proof fn lemma_escape_char_single_line(c: char)
    ensures
        single_line(escape_char(c)),
{
    reveal_strlit("\\\"");
    reveal_strlit("\\\\");
    reveal_strlit("\\b");
    reveal_strlit("\\t");
    reveal_strlit("\\n");
    reveal_strlit("\\f");
    reveal_strlit("\\r");
    reveal_strlit("\\u00");
}

/// An escaped string contains no newline, whatever the input held.
proof fn lemma_escape_seq_single_line(s: Seq<char>)
    ensures
        single_line(escape_seq(s)),
    decreases s.len(),
{
    if s.len() > 0 {
        lemma_escape_seq_single_line(s.drop_last());
        lemma_escape_char_single_line(s.last());
    }
}

/// A JSON string contains no newline, whatever the input held.
proof fn lemma_json_string_single_line(s: Seq<char>)
    ensures
        single_line(json_string(s)),
{
    reveal_strlit("\"");
    lemma_escape_seq_single_line(s);
}

/// Exactly one line of output: the rendered record of any status,
/// message and details payload contains no newline, so printing it,
/// followed by one line break, writes exactly one line to standard
/// output.
pub proof fn lemma_response_is_single_line(
    status: Status,
    message: Seq<char>,
    details: Option<Seq<char>>,
)
    ensures
        single_line(json_line(status.text(), message, details)),
{
    reveal_strlit("success");
    reveal_strlit("error");
    reveal_strlit("{\"status\":\"");
    reveal_strlit("\",\"message\":");
    reveal_strlit(",\"details\":");
    reveal_strlit("}");
    reveal_strlit("null");
    reveal_strlit("{\"endpoint_id\":");
    lemma_json_string_single_line(message);
    if let Option::Some(id) = details {
        lemma_json_string_single_line(id);
    }
}

} // verus!
