//! MCP tool-name mangling.
//!
//! Tool names exposed to a language model must match `^[a-zA-Z0-9_-]{1,64}$`. Every remote tool
//! is exposed as `mcp__<server>__<tool>`, after each segment has been sanitised.

use vstd::prelude::*;

use crate::text::{
    chars_of, find, find_in, first_at, lemma_find, lemma_find_some, occurs_at, stands_at,
    string_of,
};

verus! {

pub const MCP_PREFIX: &'static str = "mcp__";

pub const MAX_TOOL_NAME_LEN: usize = 64;

/// A character that may stand in a tool name: an ASCII letter or digit, `_` or `-`.
pub open spec fn allowed(c: char) -> bool {
    'a' <= c <= 'z' || 'A' <= c <= 'Z' || '0' <= c <= '9' || c == '_' || c == '-'
}

/// A segment with `_` for every character that may not stand in a tool name, and for no
/// characters at all.
pub open spec fn sanitized(raw: Seq<char>) -> Seq<char> {
    if raw.len() == 0 {
        seq!['_']
    } else {
        raw.map_values(
            |c: char|
                if allowed(c) {
                    c
                } else {
                    '_'
                },
        )
    }
}

/// The part of a tool name that says which server it is from.
pub open spec fn name_head(server: Seq<char>) -> Seq<char> {
    "mcp__"@ + sanitized(server) + "__"@
}

/// The name under which a server's tool is exposed: head and sanitised tool, the tail of which is
/// cut off where the whole is longer than 64 characters.
pub open spec fn tool_name(server: Seq<char>, tool: Seq<char>) -> Seq<char> {
    let full = name_head(server) + sanitized(tool);
    if full.len() <= MAX_TOOL_NAME_LEN {
        full
    } else {
        full.take(MAX_TOOL_NAME_LEN as int)
    }
}

/// The segments of a name shaped like `mcp__<server>__<tool>`; the server ends at the first `__`.
pub open spec fn name_segments(name: Seq<char>) -> Option<(Seq<char>, Seq<char>)> {
    if occurs_at(name, "mcp__"@, 0) {
        let rest = name.skip(5);
        match find(rest, "__"@) {
            Some(at) => Some((rest.take(at), rest.skip(at + 2))),
            None => None,
        }
    } else {
        None
    }
}

fn is_allowed(c: char) -> (ok: bool)
    ensures
        ok == allowed(c),
{
    ('a' <= c && c <= 'z') || ('A' <= c && c <= 'Z') || ('0' <= c && c <= '9') || c == '_' || c
        == '-'
}

/// Replaces disallowed characters with `_`. Empty input gives `"_"`.
pub fn sanitize(raw: &str) -> (out: String)
    ensures
        out@ == sanitized(raw@),
{
    let chars = chars_of(raw);
    let mut out = String::new();
    if chars.len() == 0 {
        out.push('_');
        assert(out@ =~= seq!['_']);
        return out;
    }
    let mut i: usize = 0;
    while i < chars.len()
        invariant
            i <= chars.len(),
            chars@ == raw@,
            chars.len() > 0,
            out@ == sanitized(raw@).take(i as int),
        decreases chars.len() - i,
    {
        proof {
            assert(sanitized(raw@).take(i + 1) =~= sanitized(raw@).take(i as int).push(
                sanitized(raw@)[i as int],
            ));
        }
        if is_allowed(chars[i]) {
            out.push(chars[i]);
        } else {
            out.push('_');
        }
        i += 1;
    }
    assert(sanitized(raw@).take(i as int) =~= sanitized(raw@));
    out
}

/// Builds `mcp__<server>__<tool>` and cuts it to fit the budget of 64 characters.
///
/// What is cut off is the end, so the tool segment gives way before the server segment does.
pub fn build_mcp_tool_name(server: &str, tool: &str) -> (name: String)
    ensures
        name@ == tool_name(server@, tool@),
{
    let mut full = String::new();
    full.append(MCP_PREFIX);
    full.append(sanitize(server).as_str());
    full.append("__");
    full.append(sanitize(tool).as_str());
    assert(full@ =~= name_head(server@) + sanitized(tool@));
    let mut chars = chars_of(full.as_str());
    if chars.len() <= MAX_TOOL_NAME_LEN {
        return full;
    }
    chars.truncate(MAX_TOOL_NAME_LEN);
    string_of(&chars)
}

/// Returns `(server, tool)` if `name` is shaped like `mcp__<server>__<tool>`.
pub fn parse_mcp_tool_name(name: &str) -> (segments: Option<(&str, &str)>)
    ensures
        name_segments(name@) == (match segments {
            Some((server, tool)) => Some((server@, tool@)),
            None => None,
        }),
{
    let chars = chars_of(name);
    let prefix = chars_of(MCP_PREFIX);
    proof {
        reveal_strlit("mcp__");
        reveal_strlit("__");
    }
    if !stands_at(&chars, &prefix, 0) {
        return None;
    }
    let len: usize = chars.len();
    let mut head = chars;
    let tail = head.split_off(5);
    assert(tail@ =~= name@.skip(5));
    match find_in(&tail, "__") {
        Some(at) => {
            let server = name.substring_char(5, 5 + at);
            let tool = name.substring_char(5 + at + 2, len);
            assert(server@ =~= name@.skip(5).take(at as int));
            assert(tool@ =~= name@.skip(5).skip(at + 2));
            Some((server, tool))
        },
        None => None,
    }
}

// ---------------------------------------------------------------------------
// Laws
// ---------------------------------------------------------------------------

/// Every sanitised segment is made of allowed characters and is not empty.
pub proof fn law_sanitized_is_allowed(raw: Seq<char>)
    ensures
        sanitized(raw).len() >= 1,
        forall|i: int| 0 <= i < sanitized(raw).len() ==> allowed(#[trigger] sanitized(raw)[i]),
{
}

/// Sanitising leaves a segment alone that needs no sanitising, so doing it twice is doing it once.
pub proof fn law_sanitize_is_idempotent(raw: Seq<char>)
    ensures
        raw.len() > 0 && (forall|i: int| 0 <= i < raw.len() ==> allowed(#[trigger] raw[i]))
            ==> sanitized(raw) == raw,
        sanitized(sanitized(raw)) == sanitized(raw),
{
    if raw.len() > 0 && (forall|i: int| 0 <= i < raw.len() ==> allowed(#[trigger] raw[i])) {
        assert(sanitized(raw) =~= raw);
    }
    assert(sanitized(sanitized(raw)) =~= sanitized(raw));
}

/// Every name that is built matches `^[a-zA-Z0-9_-]{1,64}$`.
pub proof fn law_name_is_legal(server: Seq<char>, tool: Seq<char>)
    ensures
        1 <= tool_name(server, tool).len() <= 64,
        forall|i: int|
            0 <= i < tool_name(server, tool).len() ==> allowed(
                #[trigger] tool_name(server, tool)[i],
            ),
{
    reveal_strlit("mcp__");
    reveal_strlit("__");
}

/// The tool segment gives way first: as long as the head fits, the name begins with all of it.
pub proof fn law_server_is_kept(server: Seq<char>, tool: Seq<char>)
    requires
        name_head(server).len() <= 64,
    ensures
        tool_name(server, tool).take(name_head(server).len() as int) == name_head(server),
{
    assert(tool_name(server, tool).take(name_head(server).len() as int) =~= name_head(server));
}

/// A name is parsed exactly if it is shaped like `mcp__<server>__<tool>`; then the segments make
/// up the name, and the server segment is the shortest that does.
pub proof fn law_parse_splits_the_name(name: Seq<char>, server: Seq<char>, tool: Seq<char>)
    ensures
        name_segments(name) matches Some((s, t)) ==> name == "mcp__"@ + s + "__"@ + t,
        name == "mcp__"@ + server + "__"@ + tool ==> (name_segments(name) matches Some((s, _))
            && s.len() <= server.len()),
{
    reveal_strlit("mcp__");
    reveal_strlit("__");
    let rest = name.skip(5);
    if name_segments(name) is Some {
        let at = find(rest, "__"@)->0;
        assert(first_at(rest, "__"@, at));
        assert(name =~= "mcp__"@ + rest);
        assert(rest =~= rest.take(at) + rest.subrange(at, at + 2) + rest.skip(at + 2));
        assert(name =~= "mcp__"@ + rest.take(at) + "__"@ + rest.skip(at + 2));
    }
    if name == "mcp__"@ + server + "__"@ + tool {
        assert(name.subrange(0, 5) =~= "mcp__"@);
        assert(rest =~= server + "__"@ + tool);
        assert(rest.subrange(server.len() as int, (server.len() + 2) as int) =~= "__"@);
        lemma_find_some(rest, "__"@, server.len() as int);
    }
}

/// A name that was built is parsed back into its sanitised segments, the tool as far as it fitted,
/// if the head fits and the server segment neither holds `__` nor ends in `_`, which is to say
/// that `__` does not occur in it with a `_` appended.
pub proof fn law_parse_inverts_build(server: Seq<char>, tool: Seq<char>)
    requires
        name_head(server).len() <= 64,
        find(sanitized(server) + "_"@, "__"@) is None,
    ensures
        name_segments(tool_name(server, tool)) == Some(
            (
                sanitized(server),
                if sanitized(tool).len() + name_head(server).len() <= 64 {
                    sanitized(tool)
                } else {
                    sanitized(tool).take(64 - name_head(server).len())
                },
            ),
        ),
{
    reveal_strlit("mcp__");
    reveal_strlit("__");
    reveal_strlit("_");
    let s = sanitized(server);
    let name = tool_name(server, tool);
    let kept = if sanitized(tool).len() + name_head(server).len() <= 64 {
        sanitized(tool)
    } else {
        sanitized(tool).take(64 - name_head(server).len())
    };
    assert(name =~= "mcp__"@ + s + "__"@ + kept);
    assert(name.subrange(0, 5) =~= "mcp__"@);
    let rest = name.skip(5);
    assert(rest =~= s + "__"@ + kept);
    assert(rest.subrange(s.len() as int, (s.len() + 2) as int) =~= "__"@);
    assert forall|j: int| 0 <= j < s.len() implies !occurs_at(rest, "__"@, j) by {
        if occurs_at(rest, "__"@, j) {
            let guarded = s + "_"@;
            assert(guarded.subrange(j, j + 2) =~= rest.subrange(j, j + 2));
            lemma_find_some(guarded, "__"@, j);
        }
    }
    lemma_find(rest, "__"@, s.len() as int);
    assert(rest.take(s.len() as int) =~= s);
    assert(rest.skip((s.len() + 2) as int) =~= kept);
}

/// Sanitising keeps letters, digits, `_` and `-` of ASCII where they stand, and puts `_` for each
/// other character. Of nothing it makes `_`.
pub proof fn law_sanitize_replaces_the_rest(raw: Seq<char>)
    ensures
        raw.len() > 0 ==> sanitized(raw).len() == raw.len(),
        forall|i: int|
            0 <= i < raw.len() ==> #[trigger] sanitized(raw)[i] == (if ('a' <= raw[i] <= 'z') || (
            'A' <= raw[i] <= 'Z') || ('0' <= raw[i] <= '9') || raw[i] == '_' || raw[i] == '-' {
                raw[i]
            } else {
                '_'
            }),
        raw.len() == 0 ==> sanitized(raw) == seq!['_'],
{
}

/// A name is `mcp__`, the server, `__` and the tool, up to the 64th character.
pub proof fn law_name_is_built_of_its_segments(server: Seq<char>, tool: Seq<char>)
    ensures
        ({
            let full = "mcp__"@ + sanitized(server) + "__"@ + sanitized(tool);
            &&& full.len() <= 64 ==> tool_name(server, tool) == full
            &&& full.len() > 64 ==> tool_name(server, tool) == full.take(64)
        }),
{
}

} // verus!
