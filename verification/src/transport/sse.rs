//! Server-sent events: how messages are found in a stream that arrives in pieces.
//!
//! An event ends with an empty line. What it says stands on its lines that begin with `data:`.

use vstd::prelude::*;
use vstd::utf8::{decode_utf8, is_ascii_chars_encode_utf8, valid_utf8};

use crate::json::{json_parsed, json_text, option_view, Json, JsonView};
use crate::record::views;
use crate::text::{
    byte_len, chars_of, cut, find, find_in, law_last_line_needs_no_line_feed,
    law_line_ends_with_its_line_feed, lemma_beginning_is_no_text, lemma_decode_concat,
    lemma_find_some, lemma_unfinished, lemma_unfinished_alone, lines, lines_of, occurs_at,
    offset_of, stands_at, trim, trimmed, unfinished, unfinished_len,
};

verus! {

// ---------------------------------------------------------------------------
// Where events end
// ---------------------------------------------------------------------------

/// An empty line stands at position `i`, whichever way lines are ended.
pub open spec fn ends_event(text: Seq<char>, i: int) -> bool {
    occurs_at(text, "\n\n"@, i) || occurs_at(text, "\r\n\r\n"@, i)
}

/// Position `i` is the first at which an empty line stands.
pub open spec fn first_end(text: Seq<char>, i: int) -> bool {
    &&& ends_event(text, i)
    &&& forall|j: int| 0 <= j < i ==> !ends_event(text, j)
}

/// Where the first event ends, if it does.
pub open spec fn boundary(text: Seq<char>) -> Option<int> {
    if exists|i: int| first_end(text, i) {
        Some(choose|i: int| first_end(text, i))
    } else {
        None
    }
}

/// The length of the empty line at the beginning of a text.
pub open spec fn boundary_len(text: Seq<char>) -> int {
    if occurs_at(text, "\r\n\r\n"@, 0) {
        4
    } else {
        2
    }
}

/// What the two kinds of empty line consist of.
proof fn lemma_empty_lines()
    ensures
        "\n\n"@ == seq!['\n', '\n'],
        "\r\n\r\n"@ == seq!['\r', '\n', '\r', '\n'],
{
    reveal_strlit("\n\n");
    reveal_strlit("\r\n\r\n");
    assert("\n\n"@ =~= seq!['\n', '\n']);
    assert("\r\n\r\n"@ =~= seq!['\r', '\n', '\r', '\n']);
}

/// There is at most one first end.
proof fn lemma_boundary(text: Seq<char>, i: int)
    requires
        first_end(text, i),
    ensures
        boundary(text) == Some(i),
{
    lemma_empty_lines();
    let k = choose|k: int| first_end(text, k);
    if k < i {
        assert(!ends_event(text, k));
    } else if i < k {
        assert(!ends_event(text, i));
    }
}

/// An empty line lies within the text, and is one of the two kinds.
pub proof fn lemma_boundary_fits(text: Seq<char>)
    ensures
        boundary(text) matches Some(i) ==> {
            &&& first_end(text, i)
            &&& 0 <= i
            &&& i + boundary_len(text.skip(i)) <= text.len()
            &&& occurs_at(text.skip(i), "\r\n\r\n"@, 0) == occurs_at(text, "\r\n\r\n"@, i)
            &&& occurs_at(text.skip(i), "\n\n"@, 0) == occurs_at(text, "\n\n"@, i)
        },
{
    lemma_empty_lines();
    if boundary(text) is Some {
        let i = boundary(text)->0;
        assert(first_end(text, i));
        lemma_occurs_in_rest(text, "\r\n\r\n"@, i);
        lemma_occurs_in_rest(text, "\n\n"@, i);
    }
}

/// What stands at a position begins the rest of the text from there.
proof fn lemma_occurs_in_rest(text: Seq<char>, pattern: Seq<char>, i: int)
    requires
        0 <= i <= text.len(),
    ensures
        occurs_at(text.skip(i), pattern, 0) == occurs_at(text, pattern, i),
{
    if i + pattern.len() <= text.len() {
        assert(text.skip(i).subrange(0, pattern.len() as int) =~= text.subrange(
            i,
            i + pattern.len(),
        ));
    }
}

/// An empty line takes as many bytes as characters.
proof fn lemma_empty_line_bytes(text: Seq<char>)
    requires
        ends_event(text, 0),
    ensures
        boundary_len(text) <= text.len(),
        byte_len(text.take(boundary_len(text))) == boundary_len(text),
{
    lemma_empty_lines();
    let line = text.take(boundary_len(text));
    assert(line =~= text.subrange(0, boundary_len(text)));
    is_ascii_chars_encode_utf8(line);
}

/// The position, in bytes, of the first empty line.
pub fn find_event_boundary(s: &str) -> (at: Option<usize>)
    ensures
        match boundary(s@) {
            Some(i) => at matches Some(offset) && offset == byte_len(s@.take(i)),
            None => at is None,
        },
{
    let chars = chars_of(s);
    let lf = find_in(&chars, "\n\n");
    let crlf = find_in(&chars, "\r\n\r\n");
    proof {
        assert forall|j: int| find(s@, "\n\n"@) is None implies !occurs_at(s@, "\n\n"@, j) by {
            if occurs_at(s@, "\n\n"@, j) {
                lemma_find_some(s@, "\n\n"@, j);
            }
        }
        assert forall|j: int| find(s@, "\r\n\r\n"@) is None implies !occurs_at(
            s@,
            "\r\n\r\n"@,
            j,
        ) by {
            if occurs_at(s@, "\r\n\r\n"@, j) {
                lemma_find_some(s@, "\r\n\r\n"@, j);
            }
        }
    }
    let at: usize = match (lf, crlf) {
        (Some(a), Some(b)) => if a <= b {
            a
        } else {
            b
        },
        (Some(a), None) => a,
        (None, Some(b)) => b,
        (None, None) => {
            return None;
        },
    };
    proof {
        assert(first_end(s@, at as int));
        lemma_boundary(s@, at as int);
    }
    Some(offset_of(s, &chars, at))
}

/// The length of the empty line at the beginning of a text.
pub fn event_boundary_len(s: &str) -> (len: usize)
    ensures
        len == boundary_len(s@),
{
    if stands_at(&chars_of(s), &chars_of("\r\n\r\n"), 0) {
        4
    } else {
        2
    }
}

// ---------------------------------------------------------------------------
// What events say
// ---------------------------------------------------------------------------

/// What a line of an event says, if it says anything. One blank after the colon does not count.
pub open spec fn payload(line: Seq<char>) -> Option<Seq<char>> {
    if occurs_at(line, "data:"@, 0) {
        let rest = line.skip(5);
        if rest.len() > 0 && rest.first() == ' ' {
            Some(rest.drop_first())
        } else {
            Some(rest)
        }
    } else {
        None
    }
}

/// What the lines of an event say together, one after the other, if any of them says anything.
pub open spec fn said_by(lines: Seq<Seq<char>>) -> Option<Seq<char>>
    decreases lines.len(),
{
    if lines.len() == 0 {
        None
    } else {
        match (said_by(lines.drop_last()), payload(lines.last())) {
            (Some(said), Some(text)) => Some(said.push('\n') + text),
            (None, text) => text,
            (said, None) => said,
        }
    }
}

/// What an event says, if it says anything.
pub open spec fn sse_data(event: Seq<char>) -> Option<Seq<char>> {
    match said_by(lines(event)) {
        Some(said) if said.len() > 0 => Some(said),
        _ => None,
    }
}

fn read_payload(line: &String) -> (text: Option<&str>)
    ensures
        option_view(text) == payload(line@),
{
    let chars = chars_of(line.as_str());
    proof {
        reveal_strlit("data:");
        assert("data:"@.len() == 5);
    }
    if stands_at(&chars, &chars_of("data:"), 0) {
        if chars.len() > 5 && chars[5] == ' ' {
            let text = line.as_str().substring_char(6, chars.len());
            assert(text@ =~= line@.skip(5).drop_first());
            Some(text)
        } else {
            let text = line.as_str().substring_char(5, chars.len());
            assert(text@ =~= line@.skip(5));
            Some(text)
        }
    } else {
        None
    }
}

/// Reads what an event says.
pub fn extract_sse_data(event: &str) -> (data: Option<String>)
    ensures
        option_view(data) == sse_data(event@),
{
    let all = lines_of(event);
    let mut data = String::new();
    let mut seen = false;
    let mut i: usize = 0;
    while i < all.len()
        invariant
            i <= all.len(),
            views(all@) == lines(event@),
            said_by(lines(event@).take(i as int)) == (if seen {
                Some(data@)
            } else {
                None
            }),
            !seen ==> data@.len() == 0,
        decreases all.len() - i,
    {
        proof {
            assert(lines(event@)[i as int] == all@[i as int]@);
            assert(lines(event@).take(i + 1).drop_last() =~= lines(event@).take(i as int));
        }
        match read_payload(&all[i]) {
            Some(text) => {
                if seen {
                    data.push('\n');
                } else {
                    assert(data@ + text@ =~= text@);
                }
                data.append(text);
                seen = true;
            },
            None => {},
        }
        i += 1;
    }
    assert(lines(event@).take(i as int) =~= lines(event@));
    if data.as_str().is_empty() {
        None
    } else {
        Some(data)
    }
}

/// The message that an event brings, if it brings one.
pub open spec fn event_message(event: Seq<char>) -> Option<JsonView> {
    match sse_data(event) {
        Some(data) => json_text(data),
        None => None,
    }
}

fn read_event(event: &str) -> (message: Option<Json>)
    ensures
        option_view(message) == event_message(event@),
{
    match extract_sse_data(event) {
        Some(data) => match Json::from_text(data.as_str()) {
            Ok(message) => Some(message),
            Err(_) => None,
        },
        None => None,
    }
}

// ---------------------------------------------------------------------------
// Streams
// ---------------------------------------------------------------------------

/// The events of a text that are complete.
pub open spec fn events(text: Seq<char>) -> Seq<Seq<char>>
    decreases text.len(),
{
    proof {
        lemma_boundary_fits(text);
    }
    match boundary(text) {
        Some(i) => seq![text.take(i)] + events(text.skip(i + boundary_len(text.skip(i)))),
        None => Seq::empty(),
    }
}

/// What is left of a text behind its last complete event.
pub open spec fn leftover(text: Seq<char>) -> Seq<char>
    decreases text.len(),
{
    proof {
        lemma_boundary_fits(text);
    }
    match boundary(text) {
        Some(i) => leftover(text.skip(i + boundary_len(text.skip(i)))),
        None => text,
    }
}

/// The messages that events bring.
pub open spec fn messages(events: Seq<Seq<char>>) -> Seq<JsonView>
    decreases events.len(),
{
    if events.len() == 0 {
        Seq::empty()
    } else {
        match event_message(events.last()) {
            Some(message) => messages(events.drop_last()).push(message),
            None => messages(events.drop_last()),
        }
    }
}

/// What `String::from_utf8_lossy` makes of bytes that are not UTF-8.
pub uninterp spec fn lossy_text(bytes: Seq<u8>) -> Seq<char>;

/// What bytes say that are read as text.
pub open spec fn chunk_text(bytes: Seq<u8>) -> Seq<char> {
    if valid_utf8(bytes) {
        decode_utf8(bytes)
    } else {
        lossy_text(bytes)
    }
}

/// Reads bytes as text with `String::from_utf8_lossy`. UTF-8 is read as such. What becomes of
/// other bytes depends on the bytes alone.
#[verifier::external_body]
fn read_chunk(bytes: &[u8]) -> (text: String)
    ensures
        text@ == (if valid_utf8(bytes@) {
            decode_utf8(bytes@)
        } else {
            lossy_text(bytes@)
        }),
{
    String::from_utf8_lossy(bytes).into_owned()
}

/// Finds the messages in a stream of events that arrives in pieces. What is left of the text
/// waits for the end of its event, and the beginning of a character for the rest of it.
pub struct SseDecoder {
    buffer: String,
    pending: Vec<u8>,
}

/// [`SseDecoder`] as mathematics.
#[verifier::ext_equal]
pub struct DecoderView {
    pub buffer: Seq<char>,
    pub pending: Seq<u8>,
}

impl View for SseDecoder {
    type V = DecoderView;

    closed spec fn view(&self) -> DecoderView {
        DecoderView { buffer: self.buffer@, pending: self.pending@ }
    }
}

/// A decoder at the beginning of a stream.
pub open spec fn new_decoder() -> DecoderView {
    DecoderView { buffer: Seq::empty(), pending: Seq::empty() }
}

/// How many of the bytes that a decoder has, with a further piece, are finished characters.
pub open spec fn finished(decoder: DecoderView, chunk: Seq<u8>) -> int {
    let bytes = decoder.pending + chunk;
    bytes.len() - unfinished(bytes)
}

/// The text that a decoder has with a further piece.
pub open spec fn text_with(decoder: DecoderView, chunk: Seq<u8>) -> Seq<char> {
    decoder.buffer + chunk_text((decoder.pending + chunk).take(finished(decoder, chunk)))
}

/// A decoder after a further piece.
pub open spec fn fed(decoder: DecoderView, chunk: Seq<u8>) -> DecoderView {
    DecoderView {
        buffer: leftover(text_with(decoder, chunk)),
        pending: (decoder.pending + chunk).skip(finished(decoder, chunk)),
    }
}

impl SseDecoder {
    /// The beginning of a stream.
    pub fn new() -> (decoder: SseDecoder)
        ensures
            decoder@ == new_decoder(),
    {
        SseDecoder { buffer: String::new(), pending: Vec::new() }
    }

    /// Takes in a piece of the stream, and tells which messages are complete with it.
    pub fn feed(&mut self, chunk: &[u8]) -> (found: Vec<Json>)
        ensures
            final(self)@ == fed(old(self)@, chunk@),
            views(found@) == messages(events(text_with(old(self)@, chunk@))),
    {
        let mut bytes: Vec<u8> = Vec::new();
        bytes.append(&mut self.pending);
        bytes.extend_from_slice(chunk);
        assert(bytes@ =~= old(self)@.pending + chunk@);
        let end: usize = bytes.len() - unfinished_len(&bytes);
        self.pending = bytes.split_off(end);
        let text = read_chunk(bytes.as_slice());
        self.buffer.append(text.as_str());
        let ghost whole = self.buffer@;
        let ghost mut done: Seq<Seq<char>> = Seq::empty();
        let mut found: Vec<Json> = Vec::new();
        assert(done + events(whole) =~= events(whole));
        assert(views(found@) =~= messages(done));
        loop
            invariant
                self.pending@ == fed(old(self)@, chunk@).pending,
                done + events(self.buffer@) == events(whole),
                leftover(self.buffer@) == leftover(whole),
                views(found@) == messages(done),
            ensures
                boundary(self.buffer@) is None,
            decreases self.buffer@.len(),
        {
            let ghost text = self.buffer@;
            let ghost i = boundary(text)->0;
            let offset: usize = match find_event_boundary(self.buffer.as_str()) {
                Some(offset) => offset,
                None => {
                    break;
                },
            };
            proof {
                lemma_boundary_fits(text);
            }
            let (event, tail) = cut(self.buffer.as_str(), offset, Ghost(i));
            let len: usize = event_boundary_len(tail);
            proof {
                lemma_empty_line_bytes(tail@);
            }
            let (_, rest) = cut(tail, len, Ghost(len as int));
            let ghost before = found@;
            match read_event(event) {
                Some(message) => {
                    found.push(message);
                },
                None => {},
            }
            let rest = rest.to_owned();
            proof {
                assert(rest@ =~= text.skip(i + boundary_len(text.skip(i))));
                assert(done.push(event@) + events(rest@) =~= done + (seq![event@] + events(rest@)));
                assert(done.push(event@).drop_last() =~= done);
                if found@.len() > before.len() {
                    assert(views(found@) =~= views(before).push(found@.last()@));
                }
                done = done.push(event@);
            }
            self.buffer = rest;
        }
        assert(done + events(self.buffer@) =~= done);
        found
    }

    /// Ends the stream, and tells which message its last event brings, even if nothing marks its
    /// end.
    pub fn finish(self) -> (last: Option<Json>)
        ensures
            option_view(last) == last_message(self@.buffer + chunk_text(self@.pending)),
    {
        let mut rest = self.buffer;
        rest.append(read_chunk(self.pending.as_slice()).as_str());
        if trim(rest.as_str()).is_empty() {
            None
        } else {
            read_event(rest.as_str())
        }
    }
}

/// The message that what is left at the end of a stream brings, if it brings one.
pub open spec fn last_message(text: Seq<char>) -> Option<JsonView> {
    if trimmed(text).len() == 0 {
        None
    } else {
        event_message(text)
    }
}

// ---------------------------------------------------------------------------
// Laws
// ---------------------------------------------------------------------------

/// An event that is complete is not changed by what follows.
proof fn lemma_boundary_stays(text: Seq<char>, more: Seq<char>)
    requires
        boundary(text) is Some,
    ensures
        boundary(text + more) == boundary(text),
        boundary_len((text + more).skip(boundary(text)->0)) == boundary_len(
            text.skip(boundary(text)->0),
        ),
{
    lemma_empty_lines();
    lemma_boundary_fits(text);
    let whole = text + more;
    let i = boundary(text)->0;
    lemma_stands_on(text, more, "\n\n"@, i);
    lemma_stands_on(text, more, "\r\n\r\n"@, i);
    assert forall|j: int| 0 <= j < i implies !ends_event(whole, j) by {
        lemma_stands_on(text, more, "\n\n"@, j);
        lemma_stands_on(text, more, "\r\n\r\n"@, j);
        if occurs_at(whole, "\r\n\r\n"@, j) {
            let line = whole.subrange(j, j + 4);
            assert(line[0] == whole[j] && line[1] == whole[j + 1] && line[2] == whole[j + 2]
                && line[3] == whole[j + 3]);
        }
        if occurs_at(text, "\n\n"@, i) {
            let line = text.subrange(i, i + 2);
            assert(line[0] == whole[i] && line[1] == whole[i + 1]);
        }
        assert(!ends_event(text, j));
    }
    assert(first_end(whole, i));
    lemma_boundary(whole, i);
    lemma_boundary_fits(whole);
    if occurs_at(whole, "\r\n\r\n"@, i) && !occurs_at(text, "\r\n\r\n"@, i) {
        assert(whole.subrange(i, i + 4)[0] == whole[i]);
        assert(text.subrange(i, i + 2)[0] == whole[i]);
    }
}

/// What stands in a text still stands there when more follows, and what stands there then within
/// the text stood there before.
proof fn lemma_stands_on(text: Seq<char>, more: Seq<char>, pattern: Seq<char>, i: int)
    ensures
        occurs_at(text, pattern, i) ==> occurs_at(text + more, pattern, i),
        occurs_at(text + more, pattern, i) && i + pattern.len() <= text.len() ==> occurs_at(
            text,
            pattern,
            i,
        ),
{
    if 0 <= i && i + pattern.len() <= text.len() {
        assert((text + more).subrange(i, i + pattern.len()) =~= text.subrange(
            i,
            i + pattern.len(),
        ));
    }
}

/// It does not matter where a text is cut: the events of the one part, and those of what it
/// leaves with the other part, are the events of the whole.
pub proof fn law_cut_loses_no_event(text: Seq<char>, more: Seq<char>)
    ensures
        events(text + more) == events(text) + events(leftover(text) + more),
        leftover(text + more) == leftover(leftover(text) + more),
    decreases text.len(),
{
    match boundary(text) {
        None => {
            assert(events(text) + events(text + more) =~= events(text + more));
        },
        Some(i) => {
            lemma_boundary_fits(text);
            lemma_boundary_stays(text, more);
            let end = i + boundary_len(text.skip(i));
            assert((text + more).take(i) =~= text.take(i));
            assert((text + more).skip(end) =~= text.skip(end) + more);
            law_cut_loses_no_event(text.skip(end), more);
            assert(events(text + more) =~= events(text) + events(leftover(text) + more));
        },
    }
}

proof fn lemma_messages_concat(a: Seq<Seq<char>>, b: Seq<Seq<char>>)
    ensures
        messages(a + b) == messages(a) + messages(b),
    decreases b.len(),
{
    if b.len() == 0 {
        assert(a + b =~= a);
        assert(messages(a) + messages(b) =~= messages(a));
    } else {
        lemma_messages_concat(a, b.drop_last());
        assert((a + b).drop_last() =~= a + b.drop_last());
        assert(messages(a + b) =~= messages(a) + messages(b));
    }
}

/// What a decoder has found, and the decoder itself, after it was fed some pieces.
pub open spec fn decoded(chunks: Seq<Seq<u8>>) -> (Seq<JsonView>, DecoderView)
    decreases chunks.len(),
{
    if chunks.len() == 0 {
        (Seq::empty(), new_decoder())
    } else {
        let (found, decoder) = decoded(chunks.drop_last());
        (
            found + messages(events(text_with(decoder, chunks.last()))),
            fed(decoder, chunks.last()),
        )
    }
}

/// Pieces of a stream, put together.
pub open spec fn joined(chunks: Seq<Seq<u8>>) -> Seq<u8>
    decreases chunks.len(),
{
    if chunks.len() == 0 {
        Seq::empty()
    } else {
        joined(chunks.drop_last()) + chunks.last()
    }
}

/// There is nothing in a text that is empty.
proof fn lemma_no_events()
    ensures
        events(Seq::empty()) == Seq::<Seq<char>>::empty(),
        leftover(Seq::empty()) == Seq::<char>::empty(),
{
    lemma_empty_lines();
    lemma_boundary_fits(Seq::empty());
}

/// In the midst of UTF-8 text a decoder has found the messages of the finished characters, and
/// holds the beginning of the character that is cut.
spec fn so_far(
    part: Seq<u8>,
    rest: Seq<u8>,
    found: Seq<JsonView>,
    decoder: DecoderView,
) -> bool {
    let end = part.len() - decoder.pending.len();
    &&& 0 <= end
    &&& decoder.pending == part.skip(end)
    &&& unfinished(decoder.pending) == decoder.pending.len()
    &&& valid_utf8(part.take(end))
    &&& valid_utf8((part + rest).skip(end))
    &&& found == messages(events(decode_utf8(part.take(end))))
    &&& decoder.buffer == leftover(decode_utf8(part.take(end)))
}

/// A further piece keeps that so.
proof fn lemma_further_piece(
    part: Seq<u8>,
    chunk: Seq<u8>,
    rest: Seq<u8>,
    found: Seq<JsonView>,
    decoder: DecoderView,
)
    requires
        so_far(part, chunk + rest, found, decoder),
    ensures
        so_far(
            part + chunk,
            rest,
            found + messages(events(text_with(decoder, chunk))),
            fed(decoder, chunk),
        ),
{
    let whole = part + chunk;
    let start = part.len() - decoder.pending.len();
    let bytes = decoder.pending + chunk;
    let n = bytes.len() as int;
    let tail = (whole + rest).skip(start);
    let cut = n - unfinished(bytes);
    assert(part + (chunk + rest) =~= whole + rest);
    assert(tail.take(n) =~= bytes);
    lemma_unfinished(tail, n);
    lemma_unfinished_alone(bytes);
    assert(tail.take(cut) =~= bytes.take(cut));
    assert(tail.skip(cut) =~= (whole + rest).skip(start + cut));
    assert(whole.skip(start + cut) =~= bytes.skip(cut));
    assert(whole.take(start + cut) =~= part.take(start) + bytes.take(cut));
    lemma_decode_concat(part.take(start), bytes.take(cut));
    let head = decode_utf8(part.take(start));
    law_cut_loses_no_event(head, decode_utf8(bytes.take(cut)));
    lemma_messages_concat(events(head), events(leftover(head) + decode_utf8(bytes.take(cut))));
}

proof fn lemma_decoded_so_far(chunks: Seq<Seq<u8>>, rest: Seq<u8>)
    requires
        valid_utf8(joined(chunks) + rest),
    ensures
        so_far(joined(chunks), rest, decoded(chunks).0, decoded(chunks).1),
    decreases chunks.len(),
{
    if chunks.len() == 0 {
        let none: Seq<u8> = Seq::empty();
        lemma_no_events();
        assert(none.skip(0) =~= none);
        assert(none.take(0) =~= none);
        assert((none + rest).skip(0) =~= none + rest);
    } else {
        let part = joined(chunks.drop_last());
        assert(part + (chunks.last() + rest) =~= joined(chunks) + rest);
        lemma_decoded_so_far(chunks.drop_last(), chunks.last() + rest);
        let (found, decoder) = decoded(chunks.drop_last());
        lemma_further_piece(part, chunks.last(), rest, found, decoder);
    }
}

/// It does not matter in which pieces UTF-8 text arrives, even if characters are cut: a decoder
/// finds the messages of the whole, in their order.
pub proof fn law_pieces_do_not_matter(chunks: Seq<Seq<u8>>)
    requires
        valid_utf8(joined(chunks)),
    ensures
        decoded(chunks) == (
            messages(events(decode_utf8(joined(chunks)))),
            DecoderView {
                buffer: leftover(decode_utf8(joined(chunks))),
                pending: Seq::empty(),
            },
        ),
{
    let whole = joined(chunks);
    assert(whole + Seq::<u8>::empty() =~= whole);
    lemma_decoded_so_far(chunks, Seq::empty());
    let decoder = decoded(chunks).1;
    lemma_beginning_is_no_text(decoder.pending);
    assert(whole.take(whole.len() as int) =~= whole);
    assert(decoder.pending =~= Seq::empty());
}

proof fn lemma_event_brings(text: Seq<char>, message: JsonView)
    requires
        json_text(text) == Some(message),
        text.len() > 0,
        !text.contains('\n'),
    ensures
        messages(seq!["data: "@ + text]) == seq![message],
{
    reveal_strlit("data: ");
    reveal_strlit("data:");
    let event = "data: "@ + text;
    event.index_of_first_ensures('\n');
    if event.contains('\n') {
        let i = event.index_of_first('\n')->0;
        if i >= 6 {
            assert(text[i - 6] == '\n');
        } else {
            assert("data: "@[i] == '\n');
        }
    }
    assert(lines(event) == seq![event]);
    assert(event.subrange(0, 5) =~= "data:"@);
    assert(event.skip(5).drop_first() =~= text);
    assert(payload(event) == Some(text));
    assert(seq![event].drop_last() =~= Seq::empty());
    assert(said_by(Seq::empty()) is None);
    assert(said_by(seq![event]) == Some(text));
    assert(messages(Seq::empty()) =~= Seq::empty());
    assert(messages(seq![event]) =~= seq![message]);
}

/// A message that is sent as an event of its own is what the decoder finds, whatever follows.
pub proof fn law_event_brings_its_message(text: Seq<char>, message: JsonView, more: Seq<char>)
    requires
        json_text(text) == Some(message),
        text.len() > 0,
        !text.contains('\n'),
    ensures
        messages(events("data: "@ + text + "\n\n"@ + more)) == seq![message] + messages(
            events(more),
        ),
        leftover("data: "@ + text + "\n\n"@ + more) == leftover(more),
{
    reveal_strlit("data: ");
    reveal_strlit("\n\n");
    let event = "data: "@ + text;
    let whole = event + "\n\n"@ + more;
    let end = event.len() as int;
    assert(whole[end] == '\n' && whole[end + 1] == '\n');
    assert forall|i: int| 0 <= i < end implies whole[i] != '\n' by {
        if i >= 6 {
            assert(whole[i] == text[i - 6]);
        } else {
            assert(whole[i] == "data: "@[i]);
        }
    }
    assert forall|j: int| 0 <= j < end implies !#[trigger] empty_line_at(whole, j) by {}
    law_first_event_comes_off(whole, end);
    assert(whole.take(end) =~= event);
    assert(whole.skip(end + 2) =~= more);
    lemma_event_brings(text, message);
}

/// Where the first event ends, in characters: at the first place where two line feeds stand, or
/// two pairs of carriage return and line feed.
pub proof fn law_event_ends_at_the_first_empty_line(text: Seq<char>, i: int)
    ensures
        boundary(text) == Some(i) <==> empty_line_at(text, i) && forall|j: int|
            0 <= j < i ==> !#[trigger] empty_line_at(text, j),
        boundary(text) is None ==> !empty_line_at(text, i),
        i == 0 && empty_line_at(text, i) && text[0] == '\r' ==> boundary_len(text) == 4,
        i == 0 && empty_line_at(text, i) && text[0] == '\n' ==> boundary_len(text) == 2,
    decreases i,
{
    assert forall|k: int| #[trigger] empty_line_at(text, k) <==> ends_event(text, k) by {
        lemma_empty_line_in_characters(text, k);
    }
    lemma_empty_line_in_characters(text, i);
    lemma_empty_lines();
    if first_end(text, i) {
        lemma_boundary(text, i);
    }
    if boundary(text) is Some {
        let k = boundary(text)->0;
        assert(first_end(text, k));
        assert forall|j: int| 0 <= j < k implies !#[trigger] empty_line_at(text, j) by {
            assert(!ends_event(text, j));
        }
        if empty_line_at(text, i) && (forall|j: int| 0 <= j < i ==> !#[trigger] empty_line_at(
            text,
            j,
        )) {
            if k < i {
                assert(!empty_line_at(text, k));
            }
        }
    } else if empty_line_at(text, i) {
        if exists|j: int| 0 <= j < i && #[trigger] empty_line_at(text, j) {
            let j = choose|j: int| 0 <= j < i && #[trigger] empty_line_at(text, j);
            law_event_ends_at_the_first_empty_line(text, j);
        } else {
            assert forall|j: int| 0 <= j < i implies !ends_event(text, j) by {
                assert(!empty_line_at(text, j));
            }
            assert(first_end(text, i));
        }
    }
}

/// An empty line stands at a position, character by character.
pub open spec fn empty_line_at(text: Seq<char>, i: int) -> bool {
    &&& 0 <= i
    &&& {
        ||| i + 2 <= text.len() && text[i] == '\n' && text[i + 1] == '\n'
        ||| i + 4 <= text.len() && text[i] == '\r' && text[i + 1] == '\n' && text[i + 2] == '\r'
            && text[i + 3] == '\n'
    }
}

pub(crate) proof fn lemma_empty_line_in_characters(text: Seq<char>, i: int)
    ensures
        empty_line_at(text, i) <==> ends_event(text, i),
        0 <= i && i + 4 <= text.len() ==> (occurs_at(text, "\r\n\r\n"@, i) <==> text[i] == '\r'
            && text[i + 1] == '\n' && text[i + 2] == '\r' && text[i + 3] == '\n'),
{
    lemma_empty_lines();
    if 0 <= i && i + 2 <= text.len() {
        let two = text.subrange(i, i + 2);
        assert(two[0] == text[i] && two[1] == text[i + 1]);
        if text[i] == '\n' && text[i + 1] == '\n' {
            assert(two =~= "\n\n"@);
        }
    }
    if 0 <= i && i + 4 <= text.len() {
        let four = text.subrange(i, i + 4);
        assert(four[0] == text[i] && four[1] == text[i + 1] && four[2] == text[i + 2] && four[3]
            == text[i + 3]);
        if text[i] == '\r' && text[i + 1] == '\n' && text[i + 2] == '\r' && text[i + 3] == '\n' {
            assert(four =~= "\r\n\r\n"@);
        }
    }
}

/// The first event of a text is what stands before its first empty line, and what stands behind
/// that line is read as if nothing had been before.
pub proof fn law_first_event_comes_off(text: Seq<char>, i: int)
    requires
        empty_line_at(text, i),
        forall|j: int| 0 <= j < i ==> !#[trigger] empty_line_at(text, j),
    ensures
        ({
            let len = if text[i] == '\r' {
                4int
            } else {
                2int
            };
            let rest = text.skip(i + len);
            &&& events(text) == seq![text.take(i)] + events(rest)
            &&& leftover(text) == leftover(rest)
            &&& messages(events(text)) == messages(seq![text.take(i)]) + messages(events(rest))
        }),
{
    law_event_ends_at_the_first_empty_line(text, i);
    law_event_ends_at_the_first_empty_line(text.skip(i), 0);
    assert(empty_line_at(text.skip(i), 0));
    lemma_boundary_fits(text);
    let len = boundary_len(text.skip(i));
    lemma_messages_concat(seq![text.take(i)], events(text.skip(i + len)));
}

/// A text without an empty line has no complete event, and all of it is left.
pub proof fn law_without_an_end_all_is_left(text: Seq<char>)
    requires
        forall|i: int| !#[trigger] empty_line_at(text, i),
    ensures
        events(text).len() == 0,
        leftover(text) == text,
{
    if boundary(text) is Some {
        law_event_ends_at_the_first_empty_line(text, boundary(text)->0);
    }
}

/// Lines in a row, each but the last with the end of a line behind it.
pub open spec fn joined_rows(rows: Seq<Seq<char>>, end: Seq<char>) -> Seq<char>
    decreases rows.len(),
{
    if rows.len() == 0 {
        Seq::empty()
    } else if rows.len() == 1 {
        rows[0]
    } else {
        rows[0] + end + joined_rows(rows.drop_first(), end)
    }
}

/// Either of the two ways to end a line.
pub open spec fn ends_a_line(end: Seq<char>) -> bool {
    end == seq!['\n'] || end == seq!['\r', '\n']
}

/// A line in the form that it has without its end.
pub open spec fn is_row(row: Seq<char>) -> bool {
    !row.contains('\n') && (row.len() > 0 ==> row.last() != '\r')
}

/// The line begins with `data:`.
pub open spec fn is_data(row: Seq<char>) -> bool {
    row.len() >= 5 && row[0] == 'd' && row[1] == 'a' && row[2] == 't' && row[3] == 'a' && row[4]
        == ':'
}

/// What stands behind `data:`, without one blank at its beginning.
pub open spec fn behind_data(row: Seq<char>) -> Seq<char> {
    if row.len() > 5 && row[5] == ' ' {
        row.skip(6)
    } else {
        row.skip(5)
    }
}

/// What stands behind `data:` on all the lines that begin so, in their order.
pub open spec fn data_rows(rows: Seq<Seq<char>>) -> Seq<Seq<char>>
    decreases rows.len(),
{
    if rows.len() == 0 {
        Seq::empty()
    } else if is_data(rows.last()) {
        data_rows(rows.drop_last()).push(behind_data(rows.last()))
    } else {
        data_rows(rows.drop_last())
    }
}

/// A line says what stands behind `data:`, if it begins so, and else nothing.
pub proof fn law_line_says_what_follows_data(row: Seq<char>)
    ensures
        is_data(row) ==> payload(row) == Some(behind_data(row)),
        !is_data(row) ==> payload(row) is None,
{
    reveal_strlit("data:");
    let begin = "data:"@;
    assert(begin =~= seq!['d', 'a', 't', 'a', ':']);
    if row.len() >= 5 {
        let five = row.subrange(0, 5);
        assert(five[0] == row[0] && five[1] == row[1] && five[2] == row[2] && five[3] == row[3]
            && five[4] == row[4]);
        if is_data(row) {
            assert(five =~= begin);
            if row.len() > 5 {
                assert(row.skip(5).drop_first() =~= row.skip(6));
            }
        }
    }
}

proof fn lemma_joined_push(rows: Seq<Seq<char>>, row: Seq<char>, end: Seq<char>)
    requires
        rows.len() > 0,
    ensures
        joined_rows(rows.push(row), end) == joined_rows(rows, end) + end + row,
    decreases rows.len(),
{
    let more = rows.push(row);
    assert(more.drop_first() =~= rows.drop_first().push(row));
    if rows.len() == 1 {
        assert(more.drop_first() =~= seq![row]);
        assert(joined_rows(more.drop_first(), end) == row);
    } else {
        lemma_joined_push(rows.drop_first(), row, end);
        assert(joined_rows(more, end) =~= joined_rows(rows, end) + end + row);
    }
}

/// What lines say together is what stands behind `data:` on each, with line feeds between.
proof fn lemma_said_by_rows(rows: Seq<Seq<char>>)
    ensures
        data_rows(rows).len() == 0 ==> said_by(rows) is None,
        data_rows(rows).len() > 0 ==> said_by(rows) == Some(
            joined_rows(data_rows(rows), seq!['\n']),
        ),
    decreases rows.len(),
{
    if rows.len() > 0 {
        let before = rows.drop_last();
        lemma_said_by_rows(before);
        law_line_says_what_follows_data(rows.last());
        if is_data(rows.last()) {
            let text = behind_data(rows.last());
            if data_rows(before).len() > 0 {
                lemma_joined_push(data_rows(before), text, seq!['\n']);
                let said = joined_rows(data_rows(before), seq!['\n']);
                assert(said.push('\n') + text =~= said + seq!['\n'] + text);
            } else {
                assert(data_rows(rows) =~= seq![text]);
            }
        }
    }
}

/// The lines of lines in a row are those lines, but for an empty one at the end.
proof fn lemma_lines_of_rows(rows: Seq<Seq<char>>, end: Seq<char>)
    requires
        ends_a_line(end),
        forall|i: int| 0 <= i < rows.len() ==> is_row(#[trigger] rows[i]),
    ensures
        lines(joined_rows(rows, end)) == (if rows.len() > 0 && rows.last().len() == 0 {
            rows.drop_last()
        } else {
            rows
        }),
    decreases rows.len(),
{
    if rows.len() == 0 {
        assert(lines(joined_rows(rows, end)) =~= rows);
    } else if rows.len() == 1 {
        assert(is_row(rows[0]));
        law_last_line_needs_no_line_feed(rows[0]);
        assert(seq![rows[0]] =~= rows);
        assert(rows.drop_last() =~= Seq::empty());
        assert(rows[0].len() == 0 ==> lines(rows[0]) =~= Seq::empty());
    } else {
        let rest = rows.drop_first();
        assert(is_row(rows[0]));
        assert forall|i: int| 0 <= i < rest.len() implies is_row(#[trigger] rest[i]) by {
            assert(is_row(rows[i + 1]));
        }
        lemma_lines_of_rows(rest, end);
        law_line_ends_with_its_line_feed(rows[0], joined_rows(rest, end));
        assert(seq![rows[0]] + rest =~= rows);
        assert(seq![rows[0]] + rest.drop_last() =~= rows.drop_last());
        assert(rest.last() == rows.last());
    }
}

/// An event says what stands behind `data:` on all of its lines that begin so, with line feeds
/// between, however many lines it has, wherever those stand, and whichever way lines are ended.
/// If that is nothing, it says nothing.
pub proof fn law_event_says_all_its_data(rows: Seq<Seq<char>>, end: Seq<char>)
    requires
        ends_a_line(end),
        forall|i: int| 0 <= i < rows.len() ==> is_row(#[trigger] rows[i]),
    ensures
        ({
            let data = joined_rows(data_rows(rows), seq!['\n']);
            &&& data.len() > 0 ==> sse_data(joined_rows(rows, end)) == Some(data)
            &&& data.len() == 0 ==> sse_data(joined_rows(rows, end)) is None
        }),
{
    lemma_lines_of_rows(rows, end);
    lemma_said_by_rows(rows);
    if rows.len() > 0 && rows.last().len() == 0 {
        law_line_says_what_follows_data(rows.last());
        lemma_said_by_rows(rows.drop_last());
    }
}

proof fn lemma_data_rows_concat(a: Seq<Seq<char>>, b: Seq<Seq<char>>)
    ensures
        data_rows(a + b) == data_rows(a) + data_rows(b),
    decreases b.len(),
{
    if b.len() == 0 {
        assert(a + b =~= a);
        assert(data_rows(a) + data_rows(b) =~= data_rows(a));
    } else {
        assert((a + b).drop_last() =~= a + b.drop_last());
        assert((a + b).last() == b.last());
        lemma_data_rows_concat(a, b.drop_last());
        assert(data_rows(a + b) =~= data_rows(a) + data_rows(b));
    }
}

/// A line that does not begin with `data:` changes nothing of what an event says, whether it
/// stands before, between or behind the others.
pub proof fn law_other_lines_do_not_matter(
    before: Seq<Seq<char>>,
    row: Seq<char>,
    behind: Seq<Seq<char>>,
    end: Seq<char>,
)
    requires
        ends_a_line(end),
        forall|i: int| 0 <= i < before.len() ==> is_row(#[trigger] before[i]),
        forall|i: int| 0 <= i < behind.len() ==> is_row(#[trigger] behind[i]),
        is_row(row),
        !is_data(row),
    ensures
        sse_data(joined_rows(before.push(row) + behind, end)) == sse_data(
            joined_rows(before + behind, end),
        ),
{
    lemma_data_rows_concat(before.push(row), behind);
    lemma_data_rows_concat(before, behind);
    assert(before.push(row).drop_last() =~= before);
    law_event_says_all_its_data(before.push(row) + behind, end);
    law_event_says_all_its_data(before + behind, end);
}

/// A further line of data says its own behind a line feed.
pub proof fn law_further_data_comes_behind(
    rows: Seq<Seq<char>>,
    row: Seq<char>,
    end: Seq<char>,
    said: Seq<char>,
)
    requires
        ends_a_line(end),
        forall|i: int| 0 <= i < rows.len() ==> is_row(#[trigger] rows[i]),
        is_row(row),
        is_data(row),
        sse_data(joined_rows(rows, end)) == Some(said),
    ensures
        sse_data(joined_rows(rows.push(row), end)) == Some(
            said + seq!['\n'] + behind_data(row),
        ),
{
    law_event_says_all_its_data(rows, end);
    law_event_says_all_its_data(rows.push(row), end);
    assert(rows.push(row).drop_last() =~= rows);
    lemma_joined_push(data_rows(rows), behind_data(row), seq!['\n']);
}

/// Within lines that are not empty there is no empty line.
proof fn lemma_no_end_within(rows: Seq<Seq<char>>, end: Seq<char>, more: Seq<char>, j: int)
    requires
        ends_a_line(end),
        rows.len() > 0,
        forall|i: int| 0 <= i < rows.len() ==> is_row(#[trigger] rows[i]) && rows[i].len() > 0,
        0 <= j < joined_rows(rows, end).len(),
    ensures
        !empty_line_at(joined_rows(rows, end) + end + end + more, j),
    decreases rows.len(),
{
    let whole = joined_rows(rows, end) + end + end + more;
    let first = rows[0];
    assert(is_row(first) && first.len() > 0);
    let n = first.len() as int;
    assert forall|k: int| 0 <= k < n implies #[trigger] first[k] != '\n' by {
        if first[k] == '\n' {
            assert(first.contains('\n'));
        }
    }
    assert(forall|k: int| 0 <= k < n ==> whole[k] == first[k]);
    if rows.len() > 1 {
        let rest = rows.drop_first();
        let tail = joined_rows(rest, end) + end + end + more;
        let m = n + end.len();
        assert(whole =~= first + end + tail);
        assert forall|i: int| 0 <= i < rest.len() implies is_row(#[trigger] rest[i])
            && rest[i].len() > 0 by {
            assert(is_row(rows[i + 1]));
        }
        let next = rest[0];
        assert(is_row(rows[1]) && rows[1].len() > 0);
        assert(joined_rows(rest, end).len() >= next.len());
        assert(forall|k: int| 0 <= k < next.len() ==> tail[k] == next[k]);
        assert forall|k: int| 0 <= k < next.len() implies #[trigger] next[k] != '\n' by {
            if next[k] == '\n' {
                assert(next.contains('\n'));
            }
        }
        assert(whole[m] == next[0]);
        if next.len() > 1 {
            assert(whole[m + 1] == next[1]);
        }
        if j >= m {
            lemma_no_end_within(rest, end, more, j - m);
            assert(forall|k: int| 0 <= k < tail.len() ==> whole[m + k] == tail[k]);
        } else {
            assert(whole[m - 1] == '\n');
            assert(end.len() == 2 ==> whole[n] == '\r');
        }
    }
}

/// An event of lines that are not empty ends with the empty line behind them, and brings the
/// message that its data stand for, if they stand for one. What follows is read on its own.
pub proof fn law_event_is_read_to_its_end(
    rows: Seq<Seq<char>>,
    end: Seq<char>,
    more: Seq<char>,
)
    requires
        ends_a_line(end),
        rows.len() > 0,
        forall|i: int| 0 <= i < rows.len() ==> is_row(#[trigger] rows[i]) && rows[i].len() > 0,
    ensures
        ({
            let text = joined_rows(rows, end) + end + end + more;
            let data = joined_rows(data_rows(rows), seq!['\n']);
            let rest = messages(events(more));
            &&& events(text) == seq![joined_rows(rows, end)] + events(more)
            &&& leftover(text) == leftover(more)
            &&& data.len() > 0 && json_parsed(data) is Ok ==> messages(events(text)) == seq![
                json_parsed(data)->Ok_0,
            ] + rest
            &&& data.len() == 0 || json_parsed(data) is Err ==> messages(events(text)) == rest
        }),
{
    let event = joined_rows(rows, end);
    let text = event + end + end + more;
    let n = event.len() as int;
    assert forall|j: int| 0 <= j < n implies !#[trigger] empty_line_at(text, j) by {
        lemma_no_end_within(rows, end, more, j);
    }
    assert(empty_line_at(text, n));
    law_event_ends_at_the_first_empty_line(text, n);
    assert(text.skip(n) =~= end + end + more);
    assert(empty_line_at(text.skip(n), 0));
    law_event_ends_at_the_first_empty_line(text.skip(n), 0);
    assert(boundary_len(text.skip(n)) == 2 * end.len());
    assert(text.take(n) =~= event);
    assert(text.skip(n + 2 * end.len()) =~= more);
    law_event_says_all_its_data(rows, end);
    lemma_messages_concat(seq![event], events(more));
    assert(seq![event].drop_last() =~= Seq::empty());
    assert(messages(Seq::empty()) =~= Seq::empty());
    assert(messages(seq![event]) =~= (match event_message(event) {
        Some(message) => seq![message],
        None => Seq::empty(),
    }));
    assert(Seq::<JsonView>::empty() + messages(events(more)) =~= messages(events(more)));
}

/// Events bring their messages in their order: each that brings one adds it behind the others,
/// and each that brings none changes nothing.
pub proof fn law_messages_come_in_order(events: Seq<Seq<char>>, event: Seq<char>)
    ensures
        messages(Seq::empty()).len() == 0,
        sse_data(event) is Some && json_parsed(sse_data(event)->0) is Ok ==> messages(
            events.push(event),
        ) == messages(events).push(json_parsed(sse_data(event)->0)->Ok_0),
        sse_data(event) is None || json_parsed(sse_data(event)->0) is Err ==> messages(
            events.push(event),
        ) == messages(events),
{
    assert(events.push(event).drop_last() =~= events);
}

/// What is left at the end of a stream brings its message as an event does, unless it is blank.
pub proof fn law_end_of_the_stream_ends_an_event(text: Seq<char>)
    ensures
        trimmed(text).len() == 0 ==> last_message(text) is None,
        trimmed(text).len() > 0 && sse_data(text) is Some && json_parsed(sse_data(text)->0) is Ok
            ==> last_message(text) == Some(json_parsed(sse_data(text)->0)->Ok_0),
        sse_data(text) is None || json_parsed(sse_data(text)->0) is Err ==> last_message(
            text,
        ) is None,
{
}

/// A decoder begins with nothing, and UTF-8 is read as such.
pub proof fn law_decoder_begins_with_nothing(bytes: Seq<u8>)
    ensures
        new_decoder().buffer.len() == 0,
        new_decoder().pending.len() == 0,
        valid_utf8(bytes) ==> chunk_text(bytes) == decode_utf8(bytes),
{
}

/// A decoder that holds no beginning of a character adds a piece of UTF-8 text to what it has.
pub proof fn law_piece_is_added_to_the_text(decoder: DecoderView, chunk: Seq<u8>)
    requires
        decoder.pending.len() == 0,
        valid_utf8(chunk),
    ensures
        text_with(decoder, chunk) == decoder.buffer + decode_utf8(chunk),
        fed(decoder, chunk).buffer == leftover(decoder.buffer + decode_utf8(chunk)),
        fed(decoder, chunk).pending.len() == 0,
{
    let bytes = decoder.pending + chunk;
    assert(bytes =~= chunk);
    lemma_unfinished(chunk, chunk.len() as int);
    assert(chunk.take(chunk.len() as int) =~= chunk);
    lemma_unfinished_alone(chunk);
    lemma_beginning_is_no_text(chunk.skip(chunk.len() - unfinished(chunk)));
}

} // verus!
