//! Streamable HTTP: every message is posted to one address, and the server replies with a message,
//! with a stream of events, or with nothing.

use vstd::prelude::*;
use vstd::utf8::decode_utf8;

use crate::error::{ErrorView, McpError};
use crate::json::{json_bytes, json_text, option_view, plain, Json};
use crate::record::views;
use crate::text::{
    find, find_in, law_find_gives_the_first_place, lower, lower_chars, lowered,
};

verus! {

/// A server that is reached over HTTP.
pub struct HttpTransport {
    url: String,
    headers: Vec<(String, String)>,
    session_id: Option<String>,
}

/// [`HttpTransport`] as mathematics.
#[verifier::ext_equal]
pub struct TransportView {
    pub url: Seq<char>,
    pub headers: Seq<(Seq<char>, Seq<char>)>,
    pub session_id: Option<Seq<char>>,
}

impl View for HttpTransport {
    type V = TransportView;

    closed spec fn view(&self) -> TransportView {
        TransportView {
            url: self.url@,
            headers: views(self.headers@),
            session_id: option_view(self.session_id),
        }
    }
}

/// What a request does.
#[derive(Debug, Clone, Copy, PartialEq, Eq, Structural)]
pub enum Method {
    Post,
    Delete,
}

/// A request that is to be made.
#[derive(Debug)]
pub struct HttpRequest {
    pub method: Method,
    pub url: String,
    pub headers: Vec<(String, String)>,
    pub body: Vec<u8>,
}

/// [`HttpRequest`] as mathematics.
#[verifier::ext_equal]
pub struct HttpRequestView {
    pub method: Method,
    pub url: Seq<char>,
    pub headers: Seq<(Seq<char>, Seq<char>)>,
    pub body: Seq<u8>,
}

impl View for HttpRequest {
    type V = HttpRequestView;

    open spec fn view(&self) -> HttpRequestView {
        HttpRequestView {
            method: self.method,
            url: self.url@,
            headers: views(self.headers@),
            body: self.body@,
        }
    }
}

/// An address as `reqwest` keeps it.
#[verifier::external_type_specification]
#[verifier::external_body]
pub struct ExUrl(reqwest::Url);

/// The address that `Url::parse` makes of a text, if it makes one.
pub uninterp spec fn url_parsed(text: Seq<char>) -> Option<reqwest::Url>;

/// Whether `Url::has_host` finds a host in an address.
pub uninterp spec fn url_has_host(url: reqwest::Url) -> bool;

/// Reads an address with `Url::parse`. Whether a text is one, and which, depends on the text
/// alone. Without a colon there is no scheme, and then it is none.
#[verifier::external_body]
fn parse_url(text: &str) -> (url: Option<reqwest::Url>)
    ensures
        url == url_parsed(text@),
        !text@.contains(':') ==> url is None,
{
    reqwest::Url::parse(text).ok()
}

/// `Url::has_host` tells whether the address names a host.
pub assume_specification[ reqwest::Url::has_host ](url: &reqwest::Url) -> (has: bool)
    ensures
        has == url_has_host(*url),
;

/// A request can be made to this address: it is one, and names a host.
pub open spec fn reachable(text: Seq<char>) -> bool {
    url_parsed(text) matches Some(url) && url_has_host(url)
}

/// What is said of an address to which no request can be made.
pub open spec fn bad_url_text(text: Seq<char>) -> Seq<char> {
    "invalid URL: "@ + text
}

/// The header that tells the session, once there is one.
pub open spec fn session_header(session_id: Option<Seq<char>>) -> Seq<(Seq<char>, Seq<char>)> {
    match session_id {
        Some(id) => seq![("mcp-session-id"@, id)],
        None => Seq::empty(),
    }
}

/// The headers of a request that posts a message: of what kind it is and which kinds of reply are
/// understood, then those that were configured, then the session.
pub open spec fn post_headers(transport: TransportView) -> Seq<(Seq<char>, Seq<char>)> {
    seq![
        ("content-type"@, "application/json"@),
        ("accept"@, "application/json, text/event-stream"@),
    ] + transport.headers + session_header(transport.session_id)
}

/// The request that posts a body.
pub open spec fn posted(transport: TransportView, body: Seq<u8>) -> HttpRequestView {
    HttpRequestView {
        method: Method::Post,
        url: transport.url,
        headers: post_headers(transport),
        body,
    }
}

/// How the body of a reply is to be read.
#[derive(Debug, Clone, Copy, PartialEq, Eq, Structural)]
pub enum Reply {
    /// There is nothing to read.
    Nothing,
    /// The request was not accepted; the body says why.
    Rejected,
    /// The body is a stream of events.
    Events,
    /// The body is a message, or blank.
    Message,
}

/// How the body of a reply of this status and content type is to be read.
pub open spec fn reply_kind(status: u16, content_type: Seq<char>) -> Reply {
    if status == 202 || status == 204 {
        Reply::Nothing
    } else if !(200 <= status < 300) {
        Reply::Rejected
    } else if find(lowered(content_type), "text/event-stream"@) is Some {
        Reply::Events
    } else {
        Reply::Message
    }
}

/// The session after a server offered one: the first offer counts.
pub open spec fn session_after(
    session_id: Option<Seq<char>>,
    offered: Option<Seq<char>>,
) -> Option<Seq<char>> {
    match session_id {
        Some(_) => session_id,
        None => offered,
    }
}

fn push_header(headers: &mut Vec<(String, String)>, name: &str, value: &str)
    ensures
        views(final(headers)@) == views(old(headers)@).push((name@, value@)),
{
    let header = (name.to_owned(), value.to_owned());
    assert(views(headers@.push(header)) =~= views(headers@).push((name@, value@)));
    headers.push(header);
}

impl HttpTransport {
    /// A server at this address, to which every message is sent with these headers.
    pub fn new(url: String, headers: Vec<(String, String)>) -> (transport: HttpTransport)
        ensures
            transport@ == (TransportView {
                url: url@,
                headers: views(headers@),
                session_id: None,
            }),
    {
        HttpTransport { url, headers, session_id: None }
    }

    /// The request that sends a message, unless the server's address makes no sense.
    pub fn send(&self, msg: &Json) -> (request: Result<HttpRequest, McpError>)
        ensures
            match request {
                Ok(request) => {
                    &&& reachable(self@.url)
                    &&& request@ == posted(self@, json_bytes(msg@))
                    &&& plain(msg@) ==> json_text(decode_utf8(request.body@)) == Some(msg@)
                },
                Err(error) => {
                    &&& !reachable(self@.url)
                    &&& error@ == ErrorView::Other(bad_url_text(self@.url))
                },
            },
            !self@.url.contains(':') ==> request is Err,
    {
        let fits = match parse_url(self.url.as_str()) {
            Some(url) => url.has_host(),
            None => false,
        };
        if !fits {
            let mut text = "invalid URL: ".to_owned();
            text.append(self.url.as_str());
            return Err(McpError::other(text));
        }
        Ok(self.post(msg.to_bytes()))
    }

    /// The request that posts a body.
    pub fn post(&self, body: Vec<u8>) -> (request: HttpRequest)
        ensures
            request@ == posted(self@, body@),
    {
        let mut headers: Vec<(String, String)> = Vec::new();
        push_header(&mut headers, "content-type", "application/json");
        push_header(&mut headers, "accept", "application/json, text/event-stream");
        let ghost fixed = views(headers@);
        let mut i: usize = 0;
        while i < self.headers.len()
            invariant
                i <= self.headers.len(),
                views(headers@) == fixed + views(self.headers@).take(i as int),
            decreases self.headers.len() - i,
        {
            assert(views(self.headers@).take(i + 1) =~= views(self.headers@).take(i as int).push(
                self.headers@[i as int]@,
            ));
            push_header(&mut headers, self.headers[i].0.as_str(), self.headers[i].1.as_str());
            i += 1;
        }
        assert(views(self.headers@).take(i as int) =~= views(self.headers@));
        match &self.session_id {
            Some(id) => {
                push_header(&mut headers, "mcp-session-id", id.as_str());
            },
            None => {},
        }
        assert(views(headers@) =~= post_headers(self@));
        HttpRequest { method: Method::Post, url: self.url.clone(), headers, body }
    }

    /// Takes note of the head of a reply, and tells how its body is to be read.
    pub fn receive(
        &mut self,
        status: u16,
        session_id: Option<String>,
        content_type: Option<&str>,
    ) -> (reply: Reply)
        ensures
            final(self)@ == (TransportView {
                session_id: session_after(old(self)@.session_id, option_view(session_id)),
                ..old(self)@
            }),
            reply == reply_kind(
                status,
                match content_type {
                    Some(kind) => kind@,
                    None => Seq::empty(),
                },
            ),
    {
        if self.session_id.is_none() {
            self.session_id = session_id;
        }
        if status == 202 || status == 204 {
            return Reply::Nothing;
        }
        if status < 200 || status >= 300 {
            return Reply::Rejected;
        }
        let kind = match content_type {
            Some(kind) => lower_chars(kind),
            None => Vec::new(),
        };
        assert(lowered(Seq::empty()) =~= Seq::empty());
        match find_in(&kind, "text/event-stream") {
            Some(_) => Reply::Events,
            None => Reply::Message,
        }
    }

    /// The request that ends the session, if there is one.
    pub fn close(&self) -> (request: Option<HttpRequest>)
        ensures
            option_view(request) == (match self@.session_id {
                Some(id) => Some(
                    HttpRequestView {
                        method: Method::Delete,
                        url: self@.url,
                        headers: session_header(Some(id)),
                        body: Seq::empty(),
                    },
                ),
                None => None,
            }),
    {
        match &self.session_id {
            Some(id) => {
                let mut headers: Vec<(String, String)> = Vec::new();
                push_header(&mut headers, "mcp-session-id", id.as_str());
                assert(views(headers@) =~= session_header(Some(id@)));
                Some(
                    HttpRequest {
                        method: Method::Delete,
                        url: self.url.clone(),
                        headers,
                        body: Vec::new(),
                    },
                )
            },
            None => None,
        }
    }
}

// ---------------------------------------------------------------------------
// Laws
// ---------------------------------------------------------------------------

/// The transport after the heads of some replies, each of which may offer a session.
pub open spec fn after_replies(
    session_id: Option<Seq<char>>,
    offers: Seq<Option<Seq<char>>>,
) -> Option<Seq<char>>
    decreases offers.len(),
{
    if offers.len() == 0 {
        session_id
    } else {
        session_after(after_replies(session_id, offers.drop_last()), offers.last())
    }
}

/// Once a server gave a session, every message that is sent tells it, whatever is offered later.
pub proof fn law_session_is_kept(
    transport: TransportView,
    id: Seq<char>,
    offers: Seq<Option<Seq<char>>>,
)
    requires
        transport.session_id is None,
    ensures
        after_replies(session_after(transport.session_id, Some(id)), offers) == Some(id),
        post_headers(TransportView { session_id: Some(id), ..transport }).last() == (
            "mcp-session-id"@,
            id,
        ),
    decreases offers.len(),
{
    if offers.len() > 0 {
        law_session_is_kept(transport, id, offers.drop_last());
    }
}

/// As long as a server offers no session, none is told.
pub proof fn law_no_session_unless_offered(
    transport: TransportView,
    offers: Seq<Option<Seq<char>>>,
)
    requires
        transport.session_id is None,
        forall|i: int| 0 <= i < offers.len() ==> #[trigger] offers[i] is None,
    ensures
        after_replies(transport.session_id, offers) is None,
        post_headers(transport).len() == 2 + transport.headers.len(),
    decreases offers.len(),
{
    if offers.len() > 0 {
        assert(offers[offers.len() - 1] is None);
        law_no_session_unless_offered(transport, offers.drop_last());
    }
}

/// A message is posted with its kind and the kinds of reply that are understood, then with every
/// header that was configured, in their order, and with the session last if there is one. No other
/// header is sent.
pub proof fn law_post_has_its_headers(transport: TransportView)
    ensures
        ({
            let headers = post_headers(transport);
            let n = transport.headers.len() as int;
            &&& headers[0] == ("content-type"@, "application/json"@)
            &&& headers[1] == ("accept"@, "application/json, text/event-stream"@)
            &&& forall|i: int| 0 <= i < n ==> headers[2 + i] == #[trigger] transport.headers[i]
            &&& transport.session_id is None ==> headers.len() == 2 + n
            &&& transport.session_id is Some ==> headers.len() == 3 + n && headers[2 + n] == (
                "mcp-session-id"@,
                transport.session_id->0,
            )
        }),
{
}

/// A message is posted to the address of the server, with the body that it was given.
pub proof fn law_post_goes_to_the_server(transport: TransportView, body: Seq<u8>)
    ensures
        posted(transport, body).method == Method::Post,
        posted(transport, body).url == transport.url,
        posted(transport, body).body == body,
        posted(transport, body).headers == post_headers(transport),
{
}

/// The session is told in one header, if there is one.
pub proof fn law_session_is_told_in_one_header(id: Seq<char>)
    ensures
        session_header(Some(id)) == seq![("mcp-session-id"@, id)],
        session_header(None).len() == 0,
{
}

/// The first session that is offered counts.
pub proof fn law_first_offer_counts(kept: Seq<char>, offered: Option<Seq<char>>)
    ensures
        session_after(Some(kept), offered) == Some(kept),
        session_after(None, offered) == offered,
{
}

/// Which letter a character is, whatever its case.
proof fn lemma_same_letter(c: char, small: char)
    requires
        c == small || ('A' <= c <= 'Z' && c as int + 32 == small as int),
        !('A' <= small <= 'Z'),
    ensures
        lower(c) == small,
{
}

/// A reply of a status of success is a stream of events if its content type says so, in whatever
/// letter case and with whatever before and behind it.
pub proof fn law_event_stream_is_read_as_events(
    status: u16,
    before: Seq<char>,
    kind: Seq<char>,
    behind: Seq<char>,
)
    requires
        200 <= status < 300,
        status != 202,
        status != 204,
        kind.len() == "text/event-stream"@.len(),
        forall|i: int|
            0 <= i < kind.len() ==> #[trigger] kind[i] == "text/event-stream"@[i] || ('A' <= kind[i]
                <= 'Z' && kind[i] as int + 32 == "text/event-stream"@[i] as int),
    ensures
        reply_kind(status, before + kind + behind) is Events,
{
    reveal_strlit("text/event-stream");
    let pattern = "text/event-stream"@;
    let whole = lowered(before + kind + behind);
    let at = before.len() as int;
    assert forall|i: int| 0 <= i < kind.len() implies whole[at + i] == pattern[i] by {
        assert((before + kind + behind)[at + i] == kind[i]);
        lemma_same_letter(kind[i], pattern[i]);
    }
    assert(whole.subrange(at, at + pattern.len()) =~= pattern);
    law_find_gives_the_first_place(whole, pattern, at);
}

/// A reply of a status of success whose content type does not say that it is a stream of events,
/// in any letter case, is read as a message.
pub proof fn law_other_kinds_are_read_as_a_message(status: u16, content_type: Seq<char>)
    requires
        200 <= status < 300,
        status != 202,
        status != 204,
        forall|at: int| !#[trigger] event_stream_at(content_type, at),
    ensures
        reply_kind(status, content_type) is Message,
{
    let pattern = "text/event-stream"@;
    let whole = lowered(content_type);
    if find(whole, pattern) is Some {
        let at = find(whole, pattern)->0;
        law_find_gives_the_first_place(whole, pattern, at);
        reveal_strlit("text/event-stream");
        assert forall|i: int| 0 <= i < pattern.len() implies #[trigger] content_type[at + i]
            == pattern[i] || ('A' <= content_type[at + i] <= 'Z' && content_type[at + i] as int + 32
            == pattern[i] as int) by {
            assert(whole.subrange(at, at + pattern.len())[i] == whole[at + i]);
            assert(whole[at + i] == lower(content_type[at + i]));
        }
        assert(event_stream_at(content_type, at));
    }
}

/// The name of the kind of a stream of events stands in the text at a position, in whatever letter
/// case.
pub open spec fn event_stream_at(text: Seq<char>, at: int) -> bool {
    &&& 0 <= at
    &&& at + "text/event-stream"@.len() <= text.len()
    &&& forall|i: int|
        0 <= i < "text/event-stream"@.len() ==> #[trigger] text[at + i]
            == "text/event-stream"@[i] || ('A' <= text[at + i] <= 'Z' && text[at + i] as int + 32
            == "text/event-stream"@[i] as int)
}

/// A reply that says that there is no content, or that a message was accepted, is not read, and
/// one of no status of success is rejected, whatever its content type.
pub proof fn law_status_comes_first(status: u16, content_type: Seq<char>)
    ensures
        status == 202 || status == 204 <==> reply_kind(status, content_type) is Nothing,
        status < 200 || status >= 300 <==> reply_kind(status, content_type) is Rejected,
{
}

/// An address is told in full where no request can be made to it, which is so exactly if it is
/// none or names no host.
pub proof fn law_bad_address_is_told(text: Seq<char>)
    ensures
        bad_url_text(text) == "invalid URL: "@ + text,
        reachable(text) <==> url_parsed(text) is Some && url_has_host(url_parsed(text)->0),
{
}

/// A request shows each of its fields.
pub proof fn law_request_shows_its_fields(request: HttpRequest)
    ensures
        request@.method == request.method,
        request@.url == request.url@,
        request@.headers.len() == request.headers@.len(),
        forall|i: int|
            0 <= i < request.headers@.len() ==> request@.headers[i] == (
                (#[trigger] request.headers@[i]).0@,
                request.headers@[i].1@,
            ),
        request@.body == request.body@,
{
}

} // verus!
