//! Transports: how messages become bytes, and bytes messages.
//!
//! Nothing here performs input or output. The transports say what to write or request, and make
//! sense of what was read.

use vstd::prelude::*;

use crate::error::{ErrorView, McpError};
use crate::json::{json_parsed, Json, JsonView};
use crate::text::{trim, trimmed};

pub mod http;
pub mod sse;
pub mod stdio;

verus! {

/// Reads a text that holds at most one message. A blank one holds none.
pub fn read_message(text: &str) -> (message: Result<Option<Json>, McpError>)
    ensures
        match message {
            Ok(None) => trimmed(text@).len() == 0,
            Ok(Some(json)) => {
                &&& trimmed(text@).len() > 0
                &&& json_parsed(trimmed(text@)) == Ok::<JsonView, Seq<char>>(json@)
            },
            Err(error) => {
                &&& trimmed(text@).len() > 0
                &&& json_parsed(trimmed(text@)) is Err
                &&& error@ == ErrorView::Serde(json_parsed(trimmed(text@))->Err_0)
            },
        },
{
    let text = trim(text);
    if text.is_empty() {
        return Ok(None);
    }
    match Json::from_text(text) {
        Ok(json) => Ok(Some(json)),
        Err(error) => Err(error),
    }
}

} // verus!
