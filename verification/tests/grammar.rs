use beejs::grammar::json_repair::repair_partial_json;
use beejs::grammar::parse_sse_chunk;

#[test]
fn sse_single_message_with_all_fields() {
    let msgs = parse_sse_chunk("event: update\ndata: hello\nid: 7\nretry: 1500\n\n");
    assert_eq!(msgs.len(), 1);
    assert_eq!(msgs[0].event, Some("update".to_string()));
    assert_eq!(msgs[0].data, "hello");
    assert_eq!(msgs[0].id, Some("7".to_string()));
    assert_eq!(msgs[0].retry, Some(1500));
}

#[test]
fn sse_multiline_data_and_comments() {
    let msgs = parse_sse_chunk(": ping\r\ndata: a\r\ndata:b\r\n\r\ndata: c");
    assert_eq!(msgs.len(), 2);
    assert_eq!(msgs[0].data, "a\nb");
    assert_eq!(msgs[0].event, None);
    assert_eq!(msgs[1].data, "c");
}

#[test]
fn sse_bad_retry_is_ignored_and_bare_data_field_counts() {
    let msgs = parse_sse_chunk("retry: soon\ndata\n\n");
    assert_eq!(msgs.len(), 1);
    assert_eq!(msgs[0].retry, None);
    assert_eq!(msgs[0].data, "");
}

#[test]
fn sse_empty_chunk_has_no_messages() {
    assert_eq!(parse_sse_chunk("").len(), 0);
    assert_eq!(parse_sse_chunk("\n\n\n").len(), 0);
}

#[test]
fn json_repair_keeps_valid_text() {
    assert_eq!(repair_partial_json("  {\"a\": 1}  "), "{\"a\": 1}");
    assert_eq!(repair_partial_json("   "), "null");
}

#[test]
fn json_repair_closes_open_structures() {
    assert_eq!(repair_partial_json("{\"a\": [1, 2"), "{\"a\": [1, 2]}");
    assert_eq!(repair_partial_json("{\"a\": \"hel"), "{\"a\": \"hel\"}");
    assert_eq!(repair_partial_json("[1, 2,"), "[1, 2]");
}

#[test]
fn json_repair_result_parses() {
    for input in ["{\"k\": {\"n\": [true, nul", "{\"key\":", "[[[", "{\"x\": 1,"] {
        let out = repair_partial_json(input);
        assert!(serde_json::from_str::<serde_json::Value>(&out).is_ok(), "{} -> {}", input, out);
    }
}

fn flat(chunk: &str) -> Vec<(Option<String>, String, Option<String>, Option<u64>)> {
    parse_sse_chunk(chunk).into_iter().map(|m| (m.event, m.data, m.id, m.retry)).collect()
}

#[test]
fn sse_crlf_gives_the_same_messages() {
    let chunk = "event: a\ndata: 1\ndata: 2\n\nid: 9\ndata: x\nretry: 10";
    assert_eq!(flat(&chunk.replace('\n', "\r\n")), flat(chunk));
    assert_eq!(flat(chunk).len(), 2);
}

#[test]
fn sse_comment_lines_change_nothing() {
    let plain = "data: 1\n\ndata: 2\n";
    let commented = ": ping\ndata: 1\n\n:keep-alive\ndata: 2\n";
    assert_eq!(flat(commented), flat(plain));
}

#[test]
fn sse_one_message_per_block() {
    assert_eq!(flat("data: a\nevent: e\n"), vec![(Some("e".to_string()), "a".to_string(), None, None)]);
    assert_eq!(flat("id: 1\nretry: 5\n").len(), 0);
    let whole = flat("data: a\n\ndata: b\n");
    let mut parts = flat("data: a\n");
    parts.extend(flat("data: b\n"));
    assert_eq!(whole, parts);
}

#[test]
fn json_repair_of_valid_text_is_stable() {
    let once = repair_partial_json("  [1, {\"a\": true}]\n");
    assert_eq!(once, "[1, {\"a\": true}]");
    assert_eq!(repair_partial_json(&once), once);
}

#[test]
fn serde_json_answers_the_repair_relies_on() {
    for text in ["null", "{}", "[]", "\"\""] {
        assert!(serde_json::from_str::<serde_json::Value>(text).is_ok(), "{}", text);
    }
    assert!(serde_json::from_str::<serde_json::Value>("").is_err());
    for text in ["", "a\"b", "line\nbreak", "\\"] {
        let q = serde_json::to_string(text).unwrap();
        assert!(q.len() >= 2 && q.starts_with('"') && q.ends_with('"'));
        assert!(serde_json::from_str::<serde_json::Value>(&q).is_ok());
    }
}

#[test]
fn json_repair_is_idempotent() {
    for input in ["", "   ", "{\"a\": [1, 2", "[1, 2,", "{\"k\":", "\"abc", "{\"a\": \"x\\", "hello", "{]", "[}", ", ,", "1 ,"] {
        let once = repair_partial_json(input);
        assert!(serde_json::from_str::<serde_json::Value>(&once).is_ok(), "{:?} -> {:?}", input, once);
        assert_eq!(repair_partial_json(&once), once, "{:?}", input);
    }
}

#[test]
fn sse_blocks_without_payload_give_no_message() {
    let msgs = flat("id: 1\n\ndata: a\n: c\nevent: e\n\nretry: 3\n\ndata\n");
    assert_eq!(msgs.len(), 2);
    assert_eq!(msgs[0], (Some("e".to_string()), "a".to_string(), Some("1".to_string()), None));
    assert_eq!(msgs[1], (None, "".to_string(), None, Some(3)));
}
