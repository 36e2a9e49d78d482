use tokimo_package_mcp::transport::sse::{
    event_boundary_len, extract_sse_data, find_event_boundary, SseDecoder,
};
use tokimo_package_mcp::Json;

fn texts(found: &[Json]) -> Vec<String> {
    found.iter().map(|json| String::from_utf8(json.to_bytes()).unwrap()).collect()
}

#[test]
fn an_event_ends_with_an_empty_line() {
    assert_eq!(find_event_boundary("data: 1\n\ndata: 2\n\n"), Some(7));
    assert_eq!(find_event_boundary("data: 1\r\n\r\n"), Some(7));
    assert_eq!(find_event_boundary("a\r\n\r\nb\n\n"), Some(1));
    assert_eq!(find_event_boundary("a\n\nb\r\n\r\n"), Some(1));
    assert_eq!(find_event_boundary("data: 1\n"), None);
    assert_eq!(find_event_boundary("data: 1\r\n\n"), Some(8));
    assert_eq!(find_event_boundary(""), None);
}

#[test]
fn positions_are_counted_in_bytes() {
    assert_eq!(find_event_boundary("ü€😀\n\n"), Some(9));
}

#[test]
fn empty_lines_differ_in_length() {
    assert_eq!(event_boundary_len("\r\n\r\nx"), 4);
    assert_eq!(event_boundary_len("\n\nx"), 2);
}

#[test]
fn only_data_lines_say_something() {
    assert_eq!(extract_sse_data("event: message\ndata: {\"a\":1}\nid: 3").as_deref(), Some("{\"a\":1}"));
    assert_eq!(extract_sse_data("data:1").as_deref(), Some("1"));
    assert_eq!(extract_sse_data("data:  1").as_deref(), Some(" 1"));
    assert_eq!(extract_sse_data("data: 1\r\ndata: 2\r\n").as_deref(), Some("1\n2"));
    assert_eq!(extract_sse_data("data: 1\r").as_deref(), Some("1\r"));
    assert_eq!(extract_sse_data("data:\ndata: 1\ndata:\n").as_deref(), Some("\n1\n"));
    assert_eq!(extract_sse_data("data:\ndata: x").as_deref(), Some("\nx"));
    assert_eq!(extract_sse_data("data:\n"), None);
    assert_eq!(extract_sse_data(": comment\n data: 1"), None);
    assert_eq!(extract_sse_data(""), None);
}

#[test]
fn messages_are_found_in_order() {
    let mut decoder = SseDecoder::new();
    let found = decoder.feed(b"event: message\ndata: {\"id\":1}\n\n: ping\n\ndata: [\ndata: 2]\r\n\r\ndata: 3");
    assert_eq!(texts(&found), vec!["{\"id\":1}", "[2]"]);
    let last = decoder.finish();
    assert_eq!(texts(&[last.unwrap()]), vec!["3"]);
}

#[test]
fn events_that_are_no_json_are_passed_over() {
    let mut decoder = SseDecoder::new();
    assert_eq!(texts(&decoder.feed(b"data: {oops\n\ndata: 1\n\n")), vec!["1"]);
    assert!(decoder.finish().is_none());
}

#[test]
fn it_does_not_matter_where_a_stream_is_cut() {
    let stream = "data: {\"a\":\"ü€😀\"}\r\n\r\n: x\n\ndata: 2\n\ndata: [3]\r\n\r\ndata: 4\n\n";
    let whole = texts(&SseDecoder::new().feed(stream.as_bytes()));
    assert_eq!(whole, vec!["{\"a\":\"ü€😀\"}", "2", "[3]", "4"]);
    for cut in 0..=stream.len() {
        let mut decoder = SseDecoder::new();
        let mut found = decoder.feed(&stream.as_bytes()[..cut]);
        found.extend(decoder.feed(&stream.as_bytes()[cut..]));
        assert_eq!(texts(&found), whole, "cut at {cut}");
        assert!(decoder.finish().is_none());
    }
    let mut decoder = SseDecoder::new();
    let mut found: Vec<Json> = Vec::new();
    for byte in stream.as_bytes() {
        found.extend(decoder.feed(&[*byte]));
    }
    assert_eq!(texts(&found), whole);
}

#[test]
fn a_character_may_arrive_in_two_pieces() {
    let mut decoder = SseDecoder::new();
    assert!(decoder.feed(b"data: \"\xc3").is_empty());
    assert_eq!(texts(&decoder.feed(b"\xa9\"\n\n")), vec!["\"\u{e9}\""]);
    let mut decoder = SseDecoder::new();
    assert!(decoder.feed(b"data: \"\xf0\x9f").is_empty());
    assert!(decoder.feed(b"\x98").is_empty());
    assert_eq!(texts(&decoder.feed(b"\x80\"\n\n")), vec!["\"\u{1f600}\""]);
}

#[test]
fn a_character_that_is_never_finished_is_replaced() {
    let mut decoder = SseDecoder::new();
    assert!(decoder.feed(b"data: 1\ndata: \xe2\x82").is_empty());
    assert!(decoder.finish().is_none());
    let mut decoder = SseDecoder::new();
    assert!(decoder.feed(b"data: 1\nx: \xe2\x82").is_empty());
    assert_eq!(texts(&[decoder.finish().unwrap()]), vec!["1"]);
}

#[test]
fn bytes_that_are_no_text_are_replaced() {
    let mut decoder = SseDecoder::new();
    assert_eq!(texts(&decoder.feed(b"data: \"\xff\"\n\n")), vec!["\"\u{fffd}\""]);
}

#[test]
fn a_blank_end_brings_nothing() {
    let mut decoder = SseDecoder::new();
    assert!(decoder.feed(b" \n \n").is_empty());
    assert!(decoder.finish().is_none());
    assert!(SseDecoder::new().finish().is_none());
}
