//! Errors of the client, and the sentence each one is reported with.

use vstd::prelude::*;

use crate::text::{i64_text, push_i64, push_u64, u64_text};

verus! {

/// Everything that can go wrong between a caller and an MCP server.
#[derive(Debug)]
pub enum McpError {
    /// The transport failed; the text is what the operating system said.
    Io(String),
    /// A message could not be written as, or read from, JSON.
    Serde(String),
    /// No response came in time.
    Timeout { id: u64, method: String },
    /// The transport is closed.
    ConnectionLost,
    /// The server answered with a JSON-RPC error.
    ServerError { code: i64, message: String },
    /// The server answered with something that makes no sense.
    InvalidResponse(String),
    /// The server wants authentication first.
    NeedsAuth,
    /// The caller gave up.
    Cancelled,
    /// Anything else, in words.
    Other(String),
}

/// [`McpError`] with its strings as character sequences.
pub enum ErrorView {
    Io(Seq<char>),
    Serde(Seq<char>),
    Timeout { id: u64, method: Seq<char> },
    ConnectionLost,
    ServerError { code: i64, message: Seq<char> },
    InvalidResponse(Seq<char>),
    NeedsAuth,
    Cancelled,
    Other(Seq<char>),
}

impl View for McpError {
    type V = ErrorView;

    open spec fn view(&self) -> ErrorView {
        match *self {
            McpError::Io(text) => ErrorView::Io(text@),
            McpError::Serde(text) => ErrorView::Serde(text@),
            McpError::Timeout { id, method } => ErrorView::Timeout { id, method: method@ },
            McpError::ConnectionLost => ErrorView::ConnectionLost,
            McpError::ServerError { code, message } => ErrorView::ServerError {
                code,
                message: message@,
            },
            McpError::InvalidResponse(text) => ErrorView::InvalidResponse(text@),
            McpError::NeedsAuth => ErrorView::NeedsAuth,
            McpError::Cancelled => ErrorView::Cancelled,
            McpError::Other(text) => ErrorView::Other(text@),
        }
    }
}

/// The sentence that reports an error.
pub open spec fn error_text(error: ErrorView) -> Seq<char> {
    match error {
        ErrorView::Io(text) => "transport I/O: "@ + text,
        ErrorView::Serde(text) => "serde: "@ + text,
        ErrorView::Timeout { id, method } => "timeout waiting for response (id="@ + u64_text(
            id as nat,
        ) + ", method="@ + method + ")"@,
        ErrorView::ConnectionLost => "connection lost"@,
        ErrorView::ServerError { code, message } => "server error: code="@ + i64_text(code as int)
            + " message="@ + message,
        ErrorView::InvalidResponse(text) => "invalid response: "@ + text,
        ErrorView::NeedsAuth => "needs auth"@,
        ErrorView::Cancelled => "cancelled"@,
        ErrorView::Other(text) => text,
    }
}

impl McpError {
    /// An error that is described by `msg` alone.
    pub fn other(msg: String) -> (error: Self)
        ensures
            error@ == ErrorView::Other(msg@),
    {
        McpError::Other(msg)
    }

    /// The sentence that reports this error.
    pub fn message(&self) -> (text: String)
        ensures
            text@ == error_text(self@),
    {
        let mut out = String::new();
        match self {
            McpError::Io(text) => {
                out.append("transport I/O: ");
                out.append(text.as_str());
            },
            McpError::Serde(text) => {
                out.append("serde: ");
                out.append(text.as_str());
            },
            McpError::Timeout { id, method } => {
                out.append("timeout waiting for response (id=");
                push_u64(&mut out, *id);
                out.append(", method=");
                out.append(method.as_str());
                out.append(")");
            },
            McpError::ConnectionLost => out.append("connection lost"),
            McpError::ServerError { code, message } => {
                out.append("server error: code=");
                push_i64(&mut out, *code);
                out.append(" message=");
                out.append(message.as_str());
            },
            McpError::InvalidResponse(text) => {
                out.append("invalid response: ");
                out.append(text.as_str());
            },
            McpError::NeedsAuth => out.append("needs auth"),
            McpError::Cancelled => out.append("cancelled"),
            McpError::Other(text) => out.append(text.as_str()),
        }
        out
    }
}

// ---------------------------------------------------------------------------
// Laws
// ---------------------------------------------------------------------------

/// An error is reported with all that it tells, after words that say what it is.
pub proof fn law_sentence_tells_the_error(
    text: Seq<char>,
    id: u64,
    code: i64,
    method: Seq<char>,
)
    ensures
        error_text(ErrorView::Io(text)) == "transport I/O: "@ + text,
        error_text(ErrorView::Serde(text)) == "serde: "@ + text,
        error_text(ErrorView::Timeout { id, method })
            == "timeout waiting for response (id="@ + u64_text(id as nat) + ", method="@ + method
            + ")"@,
        error_text(ErrorView::ConnectionLost) == "connection lost"@,
        error_text(ErrorView::ServerError { code, message: text }) == "server error: code="@
            + i64_text(code as int) + " message="@ + text,
        error_text(ErrorView::InvalidResponse(text)) == "invalid response: "@ + text,
        error_text(ErrorView::NeedsAuth) == "needs auth"@,
        error_text(ErrorView::Cancelled) == "cancelled"@,
        error_text(ErrorView::Other(text)) == text,
{
}

/// An error shows what it tells.
pub proof fn law_error_shows_what_it_tells(error: McpError)
    ensures
        match error {
            McpError::Io(text) => error@ == ErrorView::Io(text@),
            McpError::Serde(text) => error@ == ErrorView::Serde(text@),
            McpError::Timeout { id, method } => error@ == (ErrorView::Timeout {
                id,
                method: method@,
            }),
            McpError::ConnectionLost => error@ is ConnectionLost,
            McpError::ServerError { code, message } => error@ == (ErrorView::ServerError {
                code,
                message: message@,
            }),
            McpError::InvalidResponse(text) => error@ == ErrorView::InvalidResponse(text@),
            McpError::NeedsAuth => error@ is NeedsAuth,
            McpError::Cancelled => error@ is Cancelled,
            McpError::Other(text) => error@ == ErrorView::Other(text@),
        },
{
}

} // verus!
