//! Standard input and output of a child process: one message per line, either way.

use vstd::prelude::*;
use vstd::utf8::{
    decode_utf8, encode_utf8, encode_utf8_decode_utf8, encode_utf8_valid_utf8,
    is_ascii_chars_encode_utf8, valid_utf8,
};

use crate::error::{ErrorView, McpError};
use crate::json::{json_bytes, json_text, one_line, plain, Json};
use crate::text::{blank, find, lemma_decode_concat, lower, occurs_at, trimmed};

verus! {

/// The pipe to a child process, which is open until it is closed.
pub struct StdioTransport {
    open: bool,
}

impl View for StdioTransport {
    type V = bool;

    closed spec fn view(&self) -> bool {
        self.open
    }
}

impl StdioTransport {
    /// The pipe to a child process that was just started.
    pub fn new() -> (transport: StdioTransport)
        ensures
            transport@,
    {
        StdioTransport { open: true }
    }

    /// The line to write for a message. It is one line, and what a plain message is read back
    /// from.
    pub fn send(&self, msg: &Json) -> (line: Result<Vec<u8>, McpError>)
        ensures
            match line {
                Ok(bytes) => {
                    &&& self@
                    &&& bytes@ == json_bytes(msg@).push(10)
                    &&& is_line(bytes@)
                    &&& plain(msg@) ==> json_text(trimmed(decode_utf8(bytes@))) == Some(msg@)
                },
                Err(error) => !self@ && error@ == ErrorView::ConnectionLost,
            },
    {
        if !self.open {
            return Err(McpError::ConnectionLost);
        }
        let mut bytes = msg.to_bytes();
        proof {
            lemma_line(bytes@);
        }
        bytes.push(10);
        Ok(bytes)
    }

    /// Closes the pipe, and tells whether it was still open: only then is there a child process
    /// to be ended.
    pub fn close(&mut self) -> (was_open: bool)
        ensures
            was_open == old(self)@,
            !final(self)@,
    {
        let was_open = self.open;
        self.open = false;
        was_open
    }
}

/// The bytes are UTF-8 text that has a line feed at its end and nowhere else.
pub open spec fn is_line(bytes: Seq<u8>) -> bool {
    &&& valid_utf8(bytes)
    &&& bytes.len() > 1
    &&& bytes.last() == 10
    &&& forall|i: int| 0 <= i < bytes.len() - 1 ==> #[trigger] bytes[i] != 10
}

/// A line feed makes a line, which says no more than before.
proof fn lemma_line(bytes: Seq<u8>)
    requires
        one_line(bytes),
    ensures
        is_line(bytes.push(10)),
        trimmed(decode_utf8(bytes.push(10))) == decode_utf8(bytes),
{
    let text = decode_utf8(bytes);
    let feed: Seq<u8> = seq![10];
    is_ascii_chars_encode_utf8(seq!['\n']);
    assert(encode_utf8(seq!['\n']) =~= feed);
    encode_utf8_decode_utf8(seq!['\n']);
    encode_utf8_valid_utf8(seq!['\n']);
    lemma_decode_concat(bytes, feed);
    assert(bytes + feed =~= bytes.push(10));
    assert(text + seq!['\n'] =~= text.push('\n'));
    assert(text.push('\n').drop_last() =~= text);
    reveal(blank);
    assert(trimmed(text.push('\n')) == trimmed(text));
}

// ---------------------------------------------------------------------------
// Finding the program
// ---------------------------------------------------------------------------

/// A path of the file system.
#[verifier::external_type_specification]
#[verifier::external_body]
pub struct ExPathBuf(std::path::PathBuf);

/// Why a program was not found.
#[derive(Debug)]
pub enum LookupError {
    /// There is no such program.
    NotFound,
    /// It could not be looked for, or not be told where it is.
    Failed(String),
}

/// What `which` says where it has neither a directory to search nor an absolute path to look at.
pub open spec fn nowhere_text() -> Seq<char> {
    "no path to search and provided name is not an absolute path"@
}

/// The text of a path, as `Path::to_string_lossy` gives it.
pub uninterp spec fn path_text(path: std::path::PathBuf) -> Seq<char>;

/// The text of a path. `Path::to_string_lossy` gives one for every path.
#[verifier::external_body]
fn words_of(path: &std::path::PathBuf) -> (text: String)
    ensures
        text@ == path_text(*path),
{
    path.to_string_lossy().into_owned()
}

/// The characters from `i` to `j` stand between two slashes, or between a slash and an end.
pub open spec fn is_part(text: Seq<char>, i: int, j: int) -> bool {
    &&& 0 <= i <= j <= text.len()
    &&& i == 0 || text[i - 1] == '/'
    &&& j == text.len() || text[j] == '/'
    &&& forall|k: int| i <= k < j ==> text[k] != '/'
}

/// Names with slashes between them, none of which has a meaning of its own on some system.
pub open spec fn plain_names(text: Seq<char>) -> bool {
    &&& !text.contains('\\')
    &&& !text.contains(':')
    &&& forall|i: int, j: int| #[trigger]
        is_part(text, i, j) ==> i < j && text.subrange(i, j) != "."@ && text.subrange(i, j)
            != ".."@
}

/// The command is a name, or names with slashes between them and perhaps one in front, that mean
/// the same on every system.
pub open spec fn ordinary(command: Seq<char>) -> bool {
    if command.len() > 0 && command.first() == '/' {
        plain_names(command.drop_first())
    } else {
        plain_names(command)
    }
}

/// The text in small letters, with slashes for backslashes.
pub open spec fn folded(text: Seq<char>) -> Seq<char> {
    text.map_values(
        |c: char|
            if c == '\\' {
                '/'
            } else {
                lower(c)
            },
    )
}

/// What stands in a command behind its last slash or backslash: the name of the program.
pub open spec fn last_name(command: Seq<char>) -> Seq<char>
    decreases command.len(),
{
    if command.len() == 0 || command.last() == '/' || command.last() == '\\' {
        Seq::empty()
    } else {
        last_name(command.drop_last()).push(command.last())
    }
}

/// The name stands in the text at position `i`, but for its letter case: a directory ends before
/// it, and behind it the text ends or an extension begins.
pub open spec fn named_at(text: Seq<char>, name: Seq<char>, i: int) -> bool {
    &&& occurs_at(folded(text), folded(name), i)
    &&& i == 0 || folded(text)[i - 1] == '/' || text[i - 1] == ':'
    &&& i + name.len() == text.len() || text[i + name.len()] == '.'
}

/// A path of this text is one that the command asks for. It bears the name of the program, unless
/// the command ends in a directory. Where the command means the same on every system, all of it
/// stands in the path, but for letter case and the direction of slashes.
pub open spec fn leads_to(text: Seq<char>, command: Seq<char>) -> bool {
    let name = last_name(command);
    &&& name.len() > 0 && name != "."@ && name != ".."@ ==> exists|i: int|
        named_at(text, name, i)
    &&& ordinary(command) ==> find(folded(text), folded(command)) is Some
}

/// Looks for a program with `which::which`. Whether it finds one, and in which directory, depends
/// on the environment and on the file system, so nothing is promised of that. The file that it
/// finds bears the name that the command ends in, as the name is kept or put behind a directory;
/// on some systems an extension follows, and the letter case is that of the file. Of an ordinary
/// command all stands in the path, with slashes either way. Besides that there is no such program,
/// the one thing that it complains of is that there is nowhere to search.
#[verifier::external_body]
fn look_up(command: &str) -> (found: Result<std::path::PathBuf, LookupError>)
    ensures
        found matches Ok(path) ==> leads_to(path_text(path), command@),
        found matches Err(LookupError::Failed(reason)) ==> reason@ == nowhere_text(),
{
    match which::which(command) {
        Ok(path) => Ok(path),
        Err(which::Error::CannotFindBinaryPath) => Err(LookupError::NotFound),
        Err(error) => Err(LookupError::Failed(error.to_string())),
    }
}

/// What is said of a program that was not found.
pub open spec fn not_found_text(command: Seq<char>, windows: bool) -> Seq<char> {
    "program '"@ + command + "' not found in PATH"@ + if windows {
        " (looked for "@ + command + ", "@ + command + ".cmd, "@ + command + ".bat, "@ + command
            + ".exe on Windows)"@
    } else {
        Seq::empty()
    }
}

/// Says that a program was not found.
pub fn command_not_found_message(command: &str, windows: bool) -> (message: String)
    ensures
        message@ == not_found_text(command@, windows),
{
    let mut message = "program '".to_owned();
    message.append(command);
    message.append("' not found in PATH");
    if windows {
        let mut names = " (looked for ".to_owned();
        names.append(command);
        names.append(", ");
        names.append(command);
        names.append(".cmd, ");
        names.append(command);
        names.append(".bat, ");
        names.append(command);
        names.append(".exe on Windows)");
        message.append(names.as_str());
    }
    assert(message@ =~= not_found_text(command@, windows));
    message
}

/// What is said of a program that could not be looked for.
pub open spec fn lookup_failed_text(command: Seq<char>, reason: Seq<char>) -> Seq<char> {
    "failed to resolve MCP server command '"@ + command + "' from PATH: "@ + reason
}

/// What looking for a program came to.
pub fn resolved<P>(command: &str, windows: bool, found: Result<P, LookupError>) -> (path: Result<
    P,
    McpError,
>)
    ensures
        match found {
            Ok(there) => path == Ok::<P, McpError>(there),
            Err(LookupError::NotFound) => {
                &&& path is Err
                &&& path->Err_0@ == ErrorView::Other(not_found_text(command@, windows))
            },
            Err(LookupError::Failed(reason)) => {
                &&& path is Err
                &&& path->Err_0@ == ErrorView::Other(lookup_failed_text(command@, reason@))
            },
        },
{
    match found {
        Ok(path) => Ok(path),
        Err(LookupError::NotFound) => Err(
            McpError::other(command_not_found_message(command, windows)),
        ),
        Err(LookupError::Failed(reason)) => {
            let mut message = "failed to resolve MCP server command '".to_owned();
            message.append(command);
            message.append("' from PATH: ");
            message.append(reason.as_str());
            Err(McpError::other(message))
        },
    }
}

/// Finds the program of a command. Whether there is one, and in which directory, is up to the
/// environment and the file system; [`resolved`] says what becomes of each thing that they may
/// come to. A path that is found is one that the command asks for, and an error names the command.
pub fn resolve_command(command: &str, windows: bool) -> (path: Result<
    std::path::PathBuf,
    McpError,
>)
    ensures
        path matches Ok(there) ==> leads_to(path_text(there), command@),
        path matches Err(error) ==> {
            ||| error@ == ErrorView::Other(not_found_text(command@, windows))
            ||| error@ == ErrorView::Other(lookup_failed_text(command@, nowhere_text()))
        },
{
    resolved(command, windows, look_up(command))
}

/// What is said of a program that was found.
pub open spec fn found_text(command: Seq<char>, path: Seq<char>) -> Seq<char> {
    "resolved '"@ + command + "' to "@ + path
}

/// Says that a program was found, and where.
pub fn command_found_message(command: &str, path: &std::path::PathBuf) -> (message: String)
    ensures
        message@ == found_text(command@, path_text(*path)),
{
    let mut message = "resolved '".to_owned();
    message.append(command);
    message.append("' to ");
    message.append(words_of(path).as_str());
    message
}

// ---------------------------------------------------------------------------
// Laws
// ---------------------------------------------------------------------------

/// The messages about a program name its command in full, and say why it is not there or where it
/// is. On Windows the names that were tried are told.
pub proof fn law_messages_name_the_command(
    command: Seq<char>,
    reason: Seq<char>,
    path: Seq<char>,
)
    ensures
        not_found_text(command, false) == "program '"@ + command + "' not found in PATH"@,
        not_found_text(command, true) == "program '"@ + command + "' not found in PATH"@ + (
        " (looked for "@ + command + ", "@ + command + ".cmd, "@ + command + ".bat, "@ + command
            + ".exe on Windows)"@),
        lookup_failed_text(command, reason) == "failed to resolve MCP server command '"@ + command
            + "' from PATH: "@ + reason,
        found_text(command, path) == "resolved '"@ + command + "' to "@ + path,
{
    assert(not_found_text(command, false) =~= "program '"@ + command + "' not found in PATH"@);
}

/// A line has one line feed, at its end.
pub proof fn law_line_has_one_line_feed(bytes: Seq<u8>, i: int)
    requires
        is_line(bytes),
        0 <= i < bytes.len(),
    ensures
        bytes[i] == 10 <==> i == bytes.len() - 1,
        valid_utf8(bytes),
{
}

} // verus!
