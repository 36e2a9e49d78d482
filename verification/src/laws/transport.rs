//! How messages travel.

use vstd::prelude::*;

use vstd::utf8::{
    decode_utf8, encode_utf8, encode_utf8_decode_utf8, encode_utf8_valid_utf8, valid_utf8,
};

use crate::error::{ErrorView, McpError};
use crate::json::{json_bytes, json_parsed, plain, Json, JsonView};
use crate::record::views;
use crate::text::{
    blank, byte_len, find, law_find_gives_the_first_place,
    law_trimming_takes_white_space_off_the_ends, lower, trimmed, unfinished,
};
use crate::transport::http::{
    event_stream_at, law_event_stream_is_read_as_events, law_other_kinds_are_read_as_a_message,
    post_headers, url_has_host, url_parsed, HttpRequest, HttpTransport, Method, Reply,
};
use crate::transport::read_message;
use crate::transport::sse::{
    behind_data, boundary, data_rows, decoded, empty_line_at, ends_a_line, event_boundary_len,
    extract_sse_data, find_event_boundary, is_data, is_row, joined, joined_rows,
    law_decoder_begins_with_nothing, law_end_of_the_stream_ends_an_event,
    law_event_ends_at_the_first_empty_line, law_event_is_read_to_its_end,
    law_event_says_all_its_data, law_first_event_comes_off, law_further_data_comes_behind,
    law_messages_come_in_order, law_other_lines_do_not_matter, law_piece_is_added_to_the_text,
    law_pieces_do_not_matter, law_without_an_end_all_is_left, lemma_empty_line_in_characters,
    lossy_text, new_decoder, SseDecoder,
};
use crate::transport::stdio::{
    command_found_message, command_not_found_message, folded, is_part, last_name,
    law_messages_name_the_command, named_at, ordinary, path_text, resolve_command, resolved,
    LookupError, StdioTransport,
};

verus! {

// ---------------------------------------------------------------------------
// Texts of one message
// ---------------------------------------------------------------------------

/// A text that holds a message is read without the white space round it; one of nothing but white
/// space holds none.
pub proof fn law_read_message(
    text: &str,
    before: Seq<char>,
    inner: Seq<char>,
    behind: Seq<char>,
    message: Result<Option<Json>, McpError>,
)
    requires
        call_ensures(read_message, (text,), message),
        text@ == before + inner + behind,
        forall|i: int| 0 <= i < before.len() ==> blank(#[trigger] before[i]),
        forall|i: int| 0 <= i < behind.len() ==> blank(#[trigger] behind[i]),
        inner.len() > 0 ==> !blank(inner.first()) && !blank(inner.last()),
    ensures
        inner.len() == 0 ==> message is Ok && message->Ok_0 is None,
        inner.len() > 0 && json_parsed(inner) is Ok ==> message is Ok && message->Ok_0 is Some
            && message->Ok_0->0@ == json_parsed(inner)->Ok_0,
        inner.len() > 0 && json_parsed(inner) is Err ==> message is Err && message->Err_0@
            == ErrorView::Serde(json_parsed(inner)->Err_0),
{
    law_trimming_takes_white_space_off_the_ends(before, inner, behind);
}

// ---------------------------------------------------------------------------
// HTTP
// ---------------------------------------------------------------------------

/// The headers begin with the kind of a message and the kinds of reply that are understood, go on
/// with those that were configured, and end with the session if there is one.
pub open spec fn are_headers(
    headers: Seq<(String, String)>,
    configured: Seq<(Seq<char>, Seq<char>)>,
    session_id: Option<Seq<char>>,
) -> bool {
    let n = configured.len() as int;
    &&& headers.len() == 2 + n + if session_id is Some {
        1int
    } else {
        0int
    }
    &&& headers[0]@ == ("content-type"@, "application/json"@)
    &&& headers[1]@ == ("accept"@, "application/json, text/event-stream"@)
    &&& forall|i: int| 0 <= i < n ==> headers[2 + i]@ == #[trigger] configured[i]
    &&& session_id is Some ==> headers[2 + n]@ == ("mcp-session-id"@, session_id->0)
}

/// A transport begins with the address and the headers that were configured, and without a
/// session.
pub proof fn law_http_new(
    url: String,
    headers: Vec<(String, String)>,
    transport: HttpTransport,
    i: int,
)
    requires
        call_ensures(HttpTransport::new, (url, headers), transport),
    ensures
        transport@.url == url@,
        transport@.headers.len() == headers@.len(),
        0 <= i < headers@.len() ==> transport@.headers[i] == headers@[i]@,
        transport@.session_id is None,
{
}

/// A body is posted to the address of the server, as it is and with all of the headers.
pub proof fn law_http_post(transport: &HttpTransport, body: Vec<u8>, request: HttpRequest)
    requires
        call_ensures(HttpTransport::post, (transport, body), request),
    ensures
        request.method == Method::Post,
        request.url@ == transport@.url,
        request.body@ == body@,
        are_headers(request.headers@, transport@.headers, transport@.session_id),
{
    lemma_views_are_headers(request, transport);
}

proof fn lemma_views_are_headers(request: HttpRequest, transport: &HttpTransport)
    requires
        request@.headers == post_headers(transport@),
    ensures
        are_headers(request.headers@, transport@.headers, transport@.session_id),
{
    let shown = views(request.headers@);
    let n = transport@.headers.len() as int;
    assert(shown.len() == request.headers@.len());
    assert forall|i: int| 0 <= i < shown.len() implies #[trigger] shown[i]
        == request.headers@[i]@ by {}
    assert(shown[0] == request.headers@[0]@);
    assert(shown[1] == request.headers@[1]@);
    assert forall|i: int| 0 <= i < n implies request.headers@[2 + i]@
        == #[trigger] transport@.headers[i] by {
        assert(shown[2 + i] == request.headers@[2 + i]@);
    }
    if transport@.session_id is Some {
        assert(shown[2 + n] == request.headers@[2 + n]@);
    }
}

/// A message is posted as JSON, unless the address is none or names no host; then the address is
/// told.
pub proof fn law_http_send(
    transport: &HttpTransport,
    msg: &Json,
    request: Result<HttpRequest, McpError>,
)
    requires
        call_ensures(HttpTransport::send, (transport, msg), request),
    ensures
        request is Ok <==> url_parsed(transport@.url) is Some && url_has_host(
            url_parsed(transport@.url)->0,
        ),
        request is Ok ==> {
            &&& request->Ok_0.method == Method::Post
            &&& request->Ok_0.url@ == transport@.url
            &&& request->Ok_0.body@ == json_bytes(msg@)
            &&& plain(msg@) ==> json_parsed(decode_utf8(request->Ok_0.body@)) == Ok::<
                JsonView,
                Seq<char>,
            >(msg@)
            &&& are_headers(request->Ok_0.headers@, transport@.headers, transport@.session_id)
        },
        request is Err ==> request->Err_0@ == ErrorView::Other("invalid URL: "@ + transport@.url),
{
    if request is Ok {
        lemma_views_are_headers(request->Ok_0, transport);
    }
}

/// The first session that a server offers is kept, whatever else the reply is, and the address and
/// the headers stay as they are.
pub proof fn law_http_receive_keeps_the_session(
    transport: &mut HttpTransport,
    status: u16,
    session_id: Option<String>,
    content_type: Option<&str>,
    reply: Reply,
)
    requires
        call_ensures(
            HttpTransport::receive,
            (transport, status, session_id, content_type),
            reply,
        ),
    ensures
        final(transport)@.url == old(transport)@.url,
        final(transport)@.headers == old(transport)@.headers,
        old(transport)@.session_id is Some ==> final(transport)@.session_id == old(
            transport,
        )@.session_id,
        old(transport)@.session_id is None ==> {
            &&& session_id is None ==> final(transport)@.session_id is None
            &&& session_id is Some ==> final(transport)@.session_id == Some(session_id->0@)
        },
{
}

/// A reply is read by its status first. Of those of success that have something to read, it is a
/// stream of events exactly if `text/event-stream` stands in its content type, in whatever letter
/// case and with whatever round it; else it is a message.
pub proof fn law_http_receive_tells_the_kind(
    transport: &mut HttpTransport,
    status: u16,
    session_id: Option<String>,
    content_type: Option<&str>,
    reply: Reply,
)
    requires
        call_ensures(
            HttpTransport::receive,
            (transport, status, session_id, content_type),
            reply,
        ),
    ensures
        reply is Nothing <==> status == 202 || status == 204,
        reply is Rejected <==> status < 200 || status >= 300,
        200 <= status < 300 && status != 202 && status != 204 ==> {
            &&& reply is Events || reply is Message
            &&& reply is Events <==> content_type is Some && exists|at: int|
                event_stream_at(content_type->0@, at)
        },
{
    if 200 <= status < 300 && status != 202 && status != 204 {
        let text = match content_type {
            Some(kind) => kind@,
            None => Seq::empty(),
        };
        reveal_strlit("text/event-stream");
        if exists|at: int| event_stream_at(text, at) {
            let at = choose|at: int| event_stream_at(text, at);
            let n = "text/event-stream"@.len() as int;
            let kind = text.subrange(at, at + n);
            assert(text =~= text.take(at) + kind + text.skip(at + n));
            assert forall|i: int| 0 <= i < kind.len() implies #[trigger] kind[i]
                == "text/event-stream"@[i] || ('A' <= kind[i] <= 'Z' && kind[i] as int + 32
                == "text/event-stream"@[i] as int) by {
                assert(kind[i] == text[at + i]);
            }
            law_event_stream_is_read_as_events(status, text.take(at), kind, text.skip(at + n));
        } else {
            law_other_kinds_are_read_as_a_message(status, text);
        }
    }
}

/// A session is ended by a request that tells it and nothing more, if there is one.
pub proof fn law_http_close(transport: &HttpTransport, request: Option<HttpRequest>)
    requires
        call_ensures(HttpTransport::close, (transport,), request),
    ensures
        request is Some <==> transport@.session_id is Some,
        request is Some ==> {
            &&& request->0.method == Method::Delete
            &&& request->0.url@ == transport@.url
            &&& request->0.headers@.len() == 1
            &&& request->0.headers@[0]@ == ("mcp-session-id"@, transport@.session_id->0)
            &&& request->0.body@.len() == 0
        },
{
    if request is Some {
        let shown = views(request->0.headers@);
        assert(shown.len() == request->0.headers@.len());
        assert(shown[0] == request->0.headers@[0]@);
    }
}

// ---------------------------------------------------------------------------
// Streams of events
// ---------------------------------------------------------------------------

/// An event ends at the first empty line, which is told by how many bytes stand before it.
pub proof fn law_find_event_boundary(s: &str, at: Option<usize>, i: int)
    requires
        call_ensures(find_event_boundary, (s,), at),
    ensures
        empty_line_at(s@, i) && (forall|j: int| 0 <= j < i ==> !#[trigger] empty_line_at(s@, j))
            ==> at is Some && at->0 == byte_len(s@.take(i)),
        empty_line_at(s@, i) ==> at is Some,
        (forall|j: int| !#[trigger] empty_line_at(s@, j)) ==> at is None,
{
    law_event_ends_at_the_first_empty_line(s@, i);
    if at is Some {
        law_event_ends_at_the_first_empty_line(s@, boundary(s@)->0);
    }
}

/// An empty line is four bytes long if it is written with carriage returns, and else two.
pub proof fn law_event_boundary_len(s: &str, len: usize)
    requires
        call_ensures(event_boundary_len, (s,), len),
    ensures
        len == 2 || len == 4,
        len == 4 <==> s@.len() >= 4 && s@[0] == '\r' && s@[1] == '\n' && s@[2] == '\r' && s@[3]
            == '\n',
{
    lemma_empty_line_in_characters(s@, 0);
    reveal_strlit("\r\n\r\n");
}

/// An event says what stands behind `data:` on all of its lines that begin so, with line feeds
/// between, however many lines it has, wherever those stand, and whichever way lines are ended.
pub proof fn law_extract_sse_data(
    event: &str,
    rows: Seq<Seq<char>>,
    end: Seq<char>,
    data: Option<String>,
)
    requires
        call_ensures(extract_sse_data, (event,), data),
        ends_a_line(end),
        forall|i: int| 0 <= i < rows.len() ==> is_row(#[trigger] rows[i]),
        event@ == joined_rows(rows, end),
    ensures
        joined_rows(data_rows(rows), seq!['\n']).len() > 0 ==> data is Some && data->0@
            == joined_rows(data_rows(rows), seq!['\n']),
        joined_rows(data_rows(rows), seq!['\n']).len() == 0 ==> data is None,
{
    law_event_says_all_its_data(rows, end);
}

/// A line that does not begin with `data:` makes no difference, wherever it stands.
pub proof fn law_extract_passes_over_other_lines(
    event: &str,
    longer: &str,
    before: Seq<Seq<char>>,
    row: Seq<char>,
    behind: Seq<Seq<char>>,
    end: Seq<char>,
    data: Option<String>,
    same: Option<String>,
)
    requires
        call_ensures(extract_sse_data, (event,), data),
        call_ensures(extract_sse_data, (longer,), same),
        ends_a_line(end),
        forall|i: int| 0 <= i < before.len() ==> is_row(#[trigger] before[i]),
        forall|i: int| 0 <= i < behind.len() ==> is_row(#[trigger] behind[i]),
        is_row(row),
        !is_data(row),
        event@ == joined_rows(before + behind, end),
        longer@ == joined_rows(before.push(row) + behind, end),
    ensures
        same is Some <==> data is Some,
        data is Some ==> same->0@ == data->0@,
{
    law_other_lines_do_not_matter(before, row, behind, end);
}

/// A further line of data says its own behind a line feed.
pub proof fn law_extract_adds_further_data(
    event: &str,
    longer: &str,
    rows: Seq<Seq<char>>,
    row: Seq<char>,
    end: Seq<char>,
    data: Option<String>,
    more: Option<String>,
)
    requires
        call_ensures(extract_sse_data, (event,), data),
        call_ensures(extract_sse_data, (longer,), more),
        data is Some,
        ends_a_line(end),
        forall|i: int| 0 <= i < rows.len() ==> is_row(#[trigger] rows[i]),
        is_row(row),
        is_data(row),
        event@ == joined_rows(rows, end),
        longer@ == joined_rows(rows.push(row), end),
    ensures
        more is Some,
        more->0@ == data->0@ + seq!['\n'] + behind_data(row),
{
    law_further_data_comes_behind(rows, row, end, data->0@);
}

/// A decoder begins with nothing.
pub proof fn law_decoder_new(decoder: SseDecoder)
    requires
        call_ensures(SseDecoder::new, (), decoder),
    ensures
        decoder@.buffer.len() == 0,
        decoder@.pending.len() == 0,
{
}

/// A piece that completes no event brings nothing, and is kept behind what there was.
pub proof fn law_feed_keeps_what_is_unfinished(
    decoder: &mut SseDecoder,
    chunk: &[u8],
    found: Vec<Json>,
)
    requires
        call_ensures(SseDecoder::feed, (decoder, chunk), found),
        old(decoder)@.pending.len() == 0,
        valid_utf8(chunk@),
        forall|i: int|
            !#[trigger] empty_line_at(old(decoder)@.buffer + decode_utf8(chunk@), i),
    ensures
        found@.len() == 0,
        final(decoder)@.buffer == old(decoder)@.buffer + decode_utf8(chunk@),
        final(decoder)@.pending.len() == 0,
{
    law_piece_is_added_to_the_text(old(decoder)@, chunk@);
    law_without_an_end_all_is_left(old(decoder)@.buffer + decode_utf8(chunk@));
    assert(views(found@).len() == found@.len());
}

/// A piece that completes one event brings the message that the event's data stand for, and
/// nothing if they stand for none. What follows the event is kept.
pub proof fn law_feed_brings_the_message(
    decoder: &mut SseDecoder,
    chunk: &[u8],
    rows: Seq<Seq<char>>,
    end: Seq<char>,
    more: Seq<char>,
    found: Vec<Json>,
)
    requires
        call_ensures(SseDecoder::feed, (decoder, chunk), found),
        old(decoder)@.pending.len() == 0,
        valid_utf8(chunk@),
        ends_a_line(end),
        rows.len() > 0,
        forall|i: int| 0 <= i < rows.len() ==> is_row(#[trigger] rows[i]) && rows[i].len() > 0,
        old(decoder)@.buffer + decode_utf8(chunk@) == joined_rows(rows, end) + end + end + more,
        forall|i: int| !#[trigger] empty_line_at(more, i),
    ensures
        ({
            let data = joined_rows(data_rows(rows), seq!['\n']);
            &&& data.len() > 0 && json_parsed(data) is Ok ==> found@.len() == 1 && found@[0]@
                == json_parsed(data)->Ok_0
            &&& data.len() == 0 || json_parsed(data) is Err ==> found@.len() == 0
            &&& final(decoder)@.buffer == more
            &&& final(decoder)@.pending.len() == 0
        }),
{
    law_piece_is_added_to_the_text(old(decoder)@, chunk@);
    law_event_is_read_to_its_end(rows, end, more);
    law_without_an_end_all_is_left(more);
    let shown = views(found@);
    assert(shown.len() == found@.len());
    if shown.len() > 0 {
        assert(shown[0] == found@[0]@);
    }
}

/// Events are taken off one by one. The first brings the message that its data stand for, if they
/// stand for one, and what follows its empty line comes out as if nothing had been before.
pub proof fn law_feed_takes_events_off(
    decoder: &mut SseDecoder,
    chunk: &[u8],
    found: Vec<Json>,
    i: int,
    event: &str,
    data: Option<String>,
    rest_decoder: &mut SseDecoder,
    nothing: &[u8],
    rest_found: Vec<Json>,
)
    requires
        call_ensures(SseDecoder::feed, (decoder, chunk), found),
        call_ensures(extract_sse_data, (event,), data),
        call_ensures(SseDecoder::feed, (rest_decoder, nothing), rest_found),
        old(decoder)@.pending.len() == 0,
        valid_utf8(chunk@),
        old(rest_decoder)@.pending.len() == 0,
        nothing@.len() == 0,
        ({
            let text = old(decoder)@.buffer + decode_utf8(chunk@);
            let len = if text[i] == '\r' {
                4int
            } else {
                2int
            };
            &&& empty_line_at(text, i)
            &&& forall|j: int| 0 <= j < i ==> !#[trigger] empty_line_at(text, j)
            &&& event@ == text.take(i)
            &&& old(rest_decoder)@.buffer == text.skip(i + len)
        }),
    ensures
        data is Some && json_parsed(data->0@) is Ok ==> views(found@) == seq![
            json_parsed(data->0@)->Ok_0,
        ] + views(rest_found@),
        data is None || json_parsed(data->0@) is Err ==> views(found@) == views(rest_found@),
        final(decoder)@ == final(rest_decoder)@,
{
    let text = old(decoder)@.buffer + decode_utf8(chunk@);
    let rest = old(rest_decoder)@;
    law_piece_is_added_to_the_text(old(decoder)@, chunk@);
    lemma_nothing_is_text(nothing@);
    law_piece_is_added_to_the_text(rest, nothing@);
    assert(rest.buffer + decode_utf8(nothing@) =~= rest.buffer);
    law_first_event_comes_off(text, i);
    law_messages_come_in_order(Seq::empty(), event@);
    assert(Seq::empty().push(event@) =~= seq![event@]);
    assert(final(decoder)@.pending =~= final(rest_decoder)@.pending);
}

/// No bytes are text of no characters.
proof fn lemma_nothing_is_text(bytes: Seq<u8>)
    requires
        bytes.len() == 0,
    ensures
        valid_utf8(bytes),
        decode_utf8(bytes).len() == 0,
{
    encode_utf8_decode_utf8(Seq::empty());
    encode_utf8_valid_utf8(Seq::empty());
    assert(encode_utf8(Seq::empty()) =~= bytes);
}

/// It makes no difference whether the beginning of a stream comes in one piece or in two, wherever
/// it is cut, be it within a character.
pub proof fn law_feed_in_two_pieces(
    decoder: &mut SseDecoder,
    whole: &[u8],
    found: Vec<Json>,
    first_decoder: &mut SseDecoder,
    first: &[u8],
    first_found: Vec<Json>,
    second_decoder: &mut SseDecoder,
    second: &[u8],
    second_found: Vec<Json>,
)
    requires
        call_ensures(SseDecoder::feed, (decoder, whole), found),
        call_ensures(SseDecoder::feed, (first_decoder, first), first_found),
        call_ensures(SseDecoder::feed, (second_decoder, second), second_found),
        whole@ == first@ + second@,
        valid_utf8(whole@),
        old(decoder)@.buffer.len() == 0,
        old(decoder)@.pending.len() == 0,
        old(first_decoder)@ == old(decoder)@,
        old(second_decoder)@ == final(first_decoder)@,
    ensures
        final(second_decoder)@ == final(decoder)@,
        views(first_found@) + views(second_found@) == views(found@),
{
    reveal_with_fuel(decoded, 3);
    reveal_with_fuel(joined, 3);
    let one = seq![whole@];
    let two = seq![first@, second@];
    assert(old(decoder)@ == new_decoder());
    assert(one.drop_last() =~= Seq::empty());
    assert(two.drop_last() =~= seq![first@]);
    assert(seq![first@].drop_last() =~= Seq::empty());
    assert(joined(one) =~= whole@);
    assert(joined(two) =~= whole@);
    law_pieces_do_not_matter(one);
    law_pieces_do_not_matter(two);
    assert(decoded(one).0 =~= views(found@));
    assert(decoded(two).0 =~= views(first_found@) + views(second_found@));
}

/// The bytes begin a character of which more is to come: the first announces how many belong to
/// it, and those that are there go on with it.
pub open spec fn begins_a_character(bytes: Seq<u8>) -> bool {
    &&& bytes.len() > 0
    &&& 0xc0 <= bytes[0] <= 0xf7
    &&& bytes.len() > 1 ==> bytes[0] >= 0xe0
    &&& bytes.len() > 2 ==> bytes[0] >= 0xf0
    &&& bytes.len() <= 3
    &&& forall|i: int| 0 < i < bytes.len() ==> 0x80 <= #[trigger] bytes[i] <= 0xbf
}

/// A decoder keeps the beginning of a character back, and reads what stands before it as text,
/// together with what it had kept back. Bytes that end with a character of ASCII are all read.
pub proof fn law_feed_keeps_cut_characters_back(
    decoder: &mut SseDecoder,
    chunk: &[u8],
    found: Vec<Json>,
    head: Seq<u8>,
    tail: Seq<u8>,
    other_decoder: &mut SseDecoder,
    nothing: &[u8],
    other_found: Vec<Json>,
)
    requires
        call_ensures(SseDecoder::feed, (decoder, chunk), found),
        call_ensures(SseDecoder::feed, (other_decoder, nothing), other_found),
        old(decoder)@.pending + chunk@ == head + tail,
        begins_a_character(tail) || (tail.len() == 0 && (head.len() > 0 ==> head.last() < 0x80)),
        old(other_decoder)@.pending.len() == 0,
        nothing@.len() == 0,
    ensures
        final(decoder)@.pending == tail,
        ({
            let text = if valid_utf8(head) {
                decode_utf8(head)
            } else {
                lossy_text(head)
            };
            old(other_decoder)@.buffer == old(decoder)@.buffer + text ==> {
                &&& views(found@) == views(other_found@)
                &&& final(decoder)@.buffer == final(other_decoder)@.buffer
            }
        }),
{
    let bytes = old(decoder)@.pending + chunk@;
    let other = old(other_decoder)@;
    let n = bytes.len() as int;
    lemma_nothing_is_text(nothing@);
    law_piece_is_added_to_the_text(other, nothing@);
    assert(other.buffer + decode_utf8(nothing@) =~= other.buffer);
    if tail.len() > 0 {
        assert(bytes[n - tail.len()] == tail[0]);
        if tail.len() > 1 {
            assert(bytes[n - tail.len() + 1] == tail[1]);
        }
        if tail.len() > 2 {
            assert(bytes[n - tail.len() + 2] == tail[2]);
        }
    } else if n > 0 {
        assert(bytes[n - 1] == head.last());
    }
    assert(unfinished(bytes) == tail.len());
    assert(bytes.take(n - tail.len()) =~= head);
    assert(bytes.skip(n - tail.len()) =~= tail);
}

/// What was kept back at the end of a stream is read with the rest.
pub proof fn law_finish_reads_what_was_kept_back(
    decoder: SseDecoder,
    last: Option<Json>,
    other_decoder: SseDecoder,
    other_last: Option<Json>,
)
    requires
        call_ensures(SseDecoder::finish, (decoder,), last),
        call_ensures(SseDecoder::finish, (other_decoder,), other_last),
        !valid_utf8(decoder@.pending),
        other_decoder@.pending.len() == 0,
    ensures
        other_decoder@.buffer == decoder@.buffer + lossy_text(decoder@.pending) ==> {
            &&& last is Some <==> other_last is Some
            &&& last is Some ==> last->0@ == other_last->0@
        },
{
    lemma_nothing_is_text(other_decoder@.pending);
    law_decoder_begins_with_nothing(other_decoder@.pending);
    assert(other_decoder@.buffer + decode_utf8(other_decoder@.pending) =~= other_decoder@.buffer);
}

/// What is left at the end of a stream brings its message as an event does, unless it is blank.
pub proof fn law_finish(
    decoder: SseDecoder,
    rows: Seq<Seq<char>>,
    end: Seq<char>,
    last: Option<Json>,
)
    requires
        call_ensures(SseDecoder::finish, (decoder,), last),
        decoder@.pending.len() == 0,
        ends_a_line(end),
        forall|i: int| 0 <= i < rows.len() ==> is_row(#[trigger] rows[i]),
        decoder@.buffer == joined_rows(rows, end),
    ensures
        ({
            let data = joined_rows(data_rows(rows), seq!['\n']);
            &&& last is Some <==> trimmed(decoder@.buffer).len() > 0 && data.len() > 0
                && json_parsed(data) is Ok
            &&& last is Some ==> last->0@ == json_parsed(data)->Ok_0
        }),
{
    law_event_says_all_its_data(rows, end);
    law_end_of_the_stream_ends_an_event(decoder@.buffer);
    lemma_nothing_is_text(decoder@.pending);
    assert(decoder@.buffer + decode_utf8(decoder@.pending) =~= decoder@.buffer);
    law_decoder_begins_with_nothing(decoder@.pending);
}

// ---------------------------------------------------------------------------
// Pipes and programs
// ---------------------------------------------------------------------------

/// A pipe is open at first.
pub proof fn law_stdio_new(transport: StdioTransport)
    requires
        call_ensures(StdioTransport::new, (), transport),
    ensures
        transport@,
{
}

/// A message is written as JSON on a line of its own, if the pipe is open, and else the connection
/// is lost.
pub proof fn law_stdio_send(transport: &StdioTransport, msg: &Json, line: Result<Vec<u8>, McpError>)
    requires
        call_ensures(StdioTransport::send, (transport, msg), line),
    ensures
        line is Ok <==> transport@,
        line is Err ==> line->Err_0 is ConnectionLost,
        line is Ok ==> {
            let bytes = line->Ok_0@;
            &&& bytes == json_bytes(msg@).push(10)
            &&& forall|i: int|
                0 <= i < bytes.len() ==> (#[trigger] bytes[i] == 10 <==> i == bytes.len() - 1)
        },
{
}

/// A pipe that is closed is not open, and only the first to close it is told that it was.
pub proof fn law_stdio_close(transport: &mut StdioTransport, was_open: bool)
    requires
        call_ensures(StdioTransport::close, (transport,), was_open),
    ensures
        was_open <==> old(transport)@,
        !final(transport)@,
{
}

/// What is said of a program names its command in full.
pub proof fn law_program_messages(
    command: &str,
    windows: bool,
    path: &std::path::PathBuf,
    message: String,
)
    ensures
        call_ensures(command_not_found_message, (command, windows), message) ==> {
            &&& !windows ==> message@ == "program '"@ + command@ + "' not found in PATH"@
            &&& windows ==> message@ == "program '"@ + command@ + "' not found in PATH"@ + (
            " (looked for "@ + command@ + ", "@ + command@ + ".cmd, "@ + command@ + ".bat, "@
                + command@ + ".exe on Windows)"@)
        },
        call_ensures(command_found_message, (command, path), message) ==> message@
            == "resolved '"@ + command@ + "' to "@ + path_text(*path),
{
    law_messages_name_the_command(command@, Seq::empty(), path_text(*path));
}

/// A program that was found is where it was found. One that is not there, or could not be looked
/// for, is an error that names the command and says so.
pub proof fn law_resolved<P>(
    command: &str,
    windows: bool,
    found: Result<P, LookupError>,
    path: Result<P, McpError>,
    missing: String,
)
    requires
        call_ensures(resolved::<P>, (command, windows, found), path),
        call_ensures(command_not_found_message, (command, windows), missing),
    ensures
        match found {
            Ok(there) => path is Ok && path->Ok_0 == there,
            Err(LookupError::NotFound) => path is Err && path->Err_0@ == ErrorView::Other(missing@),
            Err(LookupError::Failed(reason)) => path is Err && path->Err_0@ == ErrorView::Other(
                "failed to resolve MCP server command '"@ + command@ + "' from PATH: "@ + reason@,
            ),
        },
{
}

/// A program that is found for a bare name bears that name, but for letter case: a directory ends
/// before it, and behind it the path ends or an extension begins. One that is not found is an
/// error that names the command.
pub proof fn law_resolve_command(
    command: &str,
    windows: bool,
    path: Result<std::path::PathBuf, McpError>,
    missing: String,
)
    requires
        call_ensures(resolve_command, (command, windows), path),
        call_ensures(command_not_found_message, (command, windows), missing),
    ensures
        path is Err ==> path->Err_0@ == ErrorView::Other(missing@) || path->Err_0@
            == ErrorView::Other(
            "failed to resolve MCP server command '"@ + command@ + "' from PATH: "@
                + "no path to search and provided name is not an absolute path"@,
        ),
        path is Ok && command@.len() > 0 && command@ != "."@ && command@ != ".."@ && (forall|k: int|
            0 <= k < command@.len() ==> command@[k] != '/' && command@[k] != '\\') ==> {
            let text = path_text(path->Ok_0);
            let n = command@.len() as int;
            exists|i: int| #[trigger]
                bears_name(text, command@, i) && (i + n == text.len() || text[i + n] == '.')
        },
{
    if path is Ok && command@.len() > 0 && command@ != "."@ && command@ != ".."@ && (forall|k: int|
        0 <= k < command@.len() ==> command@[k] != '/' && command@[k] != '\\') {
        lemma_bare_name(command@);
        let text = path_text(path->Ok_0);
        let i = choose|i: int| named_at(text, command@, i);
        assert forall|k: int| 0 <= k < command@.len() implies #[trigger] lower(text[i + k])
            == lower(command@[k]) by {
            let part = folded(text).subrange(i, i + command@.len());
            assert(part[k] == folded(text)[i + k]);
            assert(part[k] == folded(command@)[k]);
        }
        assert(bears_name(text, command@, i));
    }
}

/// The name stands in the text at a position, but for letter case, and a directory ends before it.
pub open spec fn bears_name(text: Seq<char>, name: Seq<char>, i: int) -> bool {
    &&& 0 <= i
    &&& i + name.len() <= text.len()
    &&& i == 0 || text[i - 1] == '/' || text[i - 1] == '\\' || text[i - 1] == ':'
    &&& forall|k: int| 0 <= k < name.len() ==> #[trigger] lower(text[i + k]) == lower(name[k])
}

proof fn lemma_bare_name(name: Seq<char>)
    requires
        forall|k: int| 0 <= k < name.len() ==> name[k] != '/' && name[k] != '\\',
    ensures
        last_name(name) == name,
    decreases name.len(),
{
    if name.len() > 0 {
        lemma_bare_name(name.drop_last());
        assert(name.drop_last().push(name.last()) =~= name);
    }
}

/// A command of letters, digits, `-` and `_`, with single slashes between them and perhaps one in
/// front.
pub open spec fn is_simple(command: Seq<char>) -> bool {
    &&& command.len() > 0
    &&& command.last() != '/'
    &&& forall|k: int|
        0 <= k < command.len() ==> {
            let c = #[trigger] command[k];
            'a' <= c <= 'z' || 'A' <= c <= 'Z' || '0' <= c <= '9' || c == '-' || c == '_' || c
                == '/'
        }
    &&& forall|k: int|
        0 < k < command.len() && #[trigger] command[k] == '/' ==> command[k - 1] != '/'
}

/// The command stands in the text at a position, but for letter case and the direction of slashes.
pub open spec fn stands_in(text: Seq<char>, command: Seq<char>, i: int) -> bool {
    &&& 0 <= i
    &&& i + command.len() <= text.len()
    &&& forall|k: int|
        0 <= k < command.len() ==> lower(text[i + k]) == lower(#[trigger] command[k]) || (
        command[k] == '/' && text[i + k] == '\\')
}

proof fn lemma_simple_is_ordinary(command: Seq<char>)
    requires
        is_simple(command),
    ensures
        ordinary(command),
{
    let names = if command.first() == '/' {
        command.drop_first()
    } else {
        command
    };
    let gone = command.len() - names.len();
    assert forall|k: int| 0 <= k < names.len() implies names[k] == command[gone + k] by {}
    assert(names.len() > 0);
    assert(names[0] != '/') by {
        if gone == 1 && names[0] == '/' {
            assert(command[1] == '/' && command[0] == '/');
        }
    }
    assert(names.last() == command.last());
    reveal_strlit(".");
    reveal_strlit("..");
    assert forall|i: int, j: int| #[trigger] is_part(names, i, j) implies i < j && names.subrange(
        i,
        j,
    ) != "."@ && names.subrange(i, j) != ".."@ by {
        if i == j {
            assert(i > 0 && i < names.len());
            assert(command[gone + i] == '/' && command[gone + i - 1] == '/');
        }
        let part = names.subrange(i, j);
        assert(part[0] == command[gone + i]);
        assert("."@[0] == '.' && ".."@[0] == '.');
    }
    assert(!names.contains('\\'));
    assert(!names.contains(':'));
}

/// A program that is found for a simple command is at a path in which all of the command stands,
/// but for letter case and the direction of slashes.
pub proof fn law_resolve_simple_command(
    command: &str,
    windows: bool,
    path: Result<std::path::PathBuf, McpError>,
)
    requires
        call_ensures(resolve_command, (command, windows), path),
        is_simple(command@),
    ensures
        path is Ok ==> exists|i: int| stands_in(path_text(path->Ok_0), command@, i),
{
    if path is Ok {
        let text = path_text(path->Ok_0);
        lemma_simple_is_ordinary(command@);
        let i = find(folded(text), folded(command@))->0;
        law_find_gives_the_first_place(folded(text), folded(command@), i);
        assert forall|k: int| 0 <= k < command@.len() implies lower(text[i + k]) == lower(
            #[trigger] command@[k],
        ) || (command@[k] == '/' && text[i + k] == '\\') by {
            let part = folded(text).subrange(i, i + command@.len());
            assert(part[k] == folded(text)[i + k]);
            assert(part[k] == folded(command@)[k]);
        }
        assert(stands_in(text, command@, i));
    }
}

} // verus!
