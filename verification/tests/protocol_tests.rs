use lexi::engine::{CandidateData, ContextData, KeyResult};
use lexi::protocol::{
    decode_message, key_message, key_request, key_response, not_handled, json_boolean_field, json_integer_field, json_text_field,
    key_answer, key_down_outcome, read_response, response_bytes, ConnectionStep, PipeConnection,
    PipeServer, PIPE_BUFFER_SIZE,
};

#[test]
fn keydown_is_passed_on() {
    assert_eq!(key_request(r#"{"type":"keydown","keycode":65,"modifiers":3}"#), Some((65, 3)));
}

#[test]
fn keydown_defaults_missing_numbers() {
    assert_eq!(key_request(r#"{"type":"keydown","keycode":"x"}"#), Some((0, 0)));
    assert_eq!(key_request(r#"{"type":"keydown","keycode":4294967297,"modifiers":-1}"#), Some((1, -1)));
    assert_eq!(key_request(r#"{"type":"keydown","keycode":1.5,"modifiers":18446744073709551615}"#), Some((0, 0)));
}

#[test]
fn other_requests_are_not_keys() {
    for r in ["", "not json", "[1,2]", r#"{"type":"keyup","keycode":65}"#, r#"{"type":1}"#, r#"{"keycode":65}"#] {
        assert_eq!(key_request(r), None);
    }
    assert_eq!(not_handled(), r#"{"handled":false}"#);
}

fn wo_context(commit: &str) -> ContextData {
    ContextData {
        preedit: "wo".to_string(),
        candidates: ["我", "你", "他"]
            .iter()
            .map(|t| CandidateData { text: t.to_string(), comment: "c".to_string() })
            .collect(),
        page_no: 0,
        is_last_page: true,
        highlighted_index: 0,
        commit_text: commit.to_string(),
    }
}

#[test]
fn key_responses_carry_the_engine_result() {
    assert_eq!(
        key_response(&Ok(KeyResult::Handled(wo_context("")))),
        r#"{"handled":true,"commit":"","candidates":["我","你","他"],"preedit":"wo"}"#
    );
    assert_eq!(key_response(&Ok(KeyResult::NotHandled)), r#"{"handled":false}"#);
    assert_eq!(key_response(&Err("RIME not initialized".to_string())), r#"{"handled":false}"#);
    let mut odd = wo_context("a\"b\u{1}\n");
    odd.candidates.clear();
    let text = key_response(&Ok(KeyResult::Handled(odd)));
    assert_eq!(text, r#"{"handled":true,"commit":"a\"b\u0001\u000a","candidates":[],"preedit":"wo"}"#);
    let parsed: serde_json::Value = serde_json::from_str(&text).unwrap();
    assert_eq!(parsed["commit"], "a\"b\u{1}\n");
}

#[test]
fn key_messages() {
    assert_eq!(key_message(65, 0, None), r#"{"type":"keydown","keycode":65,"modifiers":0}"#);
    assert_eq!(
        key_message(65, 4, Some((-3, 20))),
        r#"{"cursor_x":-3,"cursor_y":20,"keycode":65,"modifiers":4,"type":"keydown"}"#
    );
    assert_eq!(key_request(&key_message(66, 8, Some((1, 2)))), Some((66, 8)));
    assert_eq!(key_request(&key_message(67, 1, None)), Some((67, 1)));
}

#[test]
fn json_fields_by_kind() {
    assert_eq!(json_text_field(r#"{"a":"x","b":2}"#, "a"), Some(Some("x".to_string())));
    assert_eq!(json_text_field(r#"{"a":"x","b":2}"#, "b"), Some(None));
    assert_eq!(json_text_field("nope", "a"), None);
    assert_eq!(json_integer_field(r#"{"b":-2}"#, "b"), Some(Some(-2)));
    assert_eq!(json_boolean_field(r#"{"h":true}"#, "h"), Some(Some(true)));
    assert_eq!(json_boolean_field(r#"{"h":1}"#, "h"), Some(None));
    assert_eq!(json_boolean_field("[true]", "h"), Some(None));
}

#[test]
fn response_bytes_default_answer() {
    assert_eq!(response_bytes(&None), br#"{"handled":false}"#.to_vec());
    assert_eq!(response_bytes(&Some("é".to_string())), vec![0xC3, 0xA9]);
}

#[test]
fn messages_drop_trailing_nuls() {
    let buf = b"{\"handled\":true}\0\0\0garbage";
    assert_eq!(decode_message(buf, 19), r#"{"handled":true}"#);
    assert_eq!(decode_message(b"a\xffb", 3), "a\u{FFFD}b");
    assert_eq!(read_response(buf, 0), None);
    assert_eq!(read_response(buf, 16), Some(r#"{"handled":true}"#.to_string()));
    assert_eq!(read_response(b"\0\0", 2), Some(String::new()));
}

#[test]
fn key_answers() {
    assert_eq!(key_answer(Ok(Some(r#"{"handled":true}"#.to_string()))), (true, r#"{"handled":true}"#.to_string()));
    assert_eq!(key_answer(Ok(Some(r#"{"handled":"yes"}"#.to_string()))), (false, r#"{"handled":"yes"}"#.to_string()));
    assert_eq!(key_answer(Ok(Some("junk".to_string()))), (false, "junk".to_string()));
    assert_eq!(key_answer(Ok(None)), (false, String::new()));
    assert_eq!(key_answer(Err("Pipe not connected".to_string())), (false, String::new()));
}

#[test]
fn key_down_commits() {
    assert_eq!(key_down_outcome(true, r#"{"handled":true,"commit":"你好"}"#), (true, Some("你好".to_string())));
    assert_eq!(key_down_outcome(false, r#"{"commit":""}"#), (false, None));
    assert_eq!(key_down_outcome(true, r#"{"commit":3}"#), (true, None));
    assert_eq!(key_down_outcome(true, ""), (true, None));
    assert_eq!(key_down_outcome(false, "junk"), (false, None));
}

#[test]
fn connection_answers_each_request() {
    let (mut c, step) = PipeConnection::open();
    assert!(matches!(step, ConnectionStep::Read { capacity } if capacity == PIPE_BUFFER_SIZE));
    match c.on_read(Some(b"{\"type\":".to_vec())) {
        ConnectionStep::Handle(r) => assert_eq!(r, "{\"type\":"),
        _ => panic!("expected a request"),
    }
    match c.on_answer(None) {
        ConnectionStep::Write(b) => assert_eq!(b, br#"{"handled":false}"#.to_vec()),
        _ => panic!("expected a write"),
    }
    assert!(matches!(c.on_written(true), ConnectionStep::Read { capacity } if capacity == PIPE_BUFFER_SIZE));
    match c.on_read(Some(b"de\0".to_vec())) {
        ConnectionStep::Handle(r) => assert_eq!(r, "de"),
        _ => panic!("expected a request"),
    }
    assert!(matches!(c.on_answer(Some("ok".to_string())), ConnectionStep::Write(_)));
    assert!(matches!(c.on_written(false), ConnectionStep::Close));
}

#[test]
fn every_request_gets_its_answer() {
    // The client writes "a", reads the answer, writes "b", reads the answer.
    let handler = |r: String| Some(r.to_uppercase());
    let (mut c, mut step) = PipeConnection::open();
    let mut input: Vec<Vec<u8>> = vec![b"a".to_vec(), b"b".to_vec()];
    input.reverse();
    let mut written: Vec<Vec<u8>> = Vec::new();
    let mut handled: Vec<String> = Vec::new();
    loop {
        step = match step {
            ConnectionStep::Read { .. } => c.on_read(Some(input.pop().unwrap_or_default())),
            ConnectionStep::Handle(r) => {
                handled.push(r.clone());
                c.on_answer(handler(r))
            }
            ConnectionStep::Write(b) => {
                written.push(b);
                c.on_written(true)
            }
            ConnectionStep::Close => break,
        };
    }
    assert_eq!(handled, vec!["a".to_string(), "b".to_string()]);
    assert_eq!(written, vec![b"A".to_vec(), b"B".to_vec()]);
}

#[test]
fn connection_closes_on_end_or_error() {
    let (mut c, _) = PipeConnection::open();
    assert!(matches!(c.on_read(Some(Vec::new())), ConnectionStep::Close));
    let (mut c, _) = PipeConnection::open();
    assert!(matches!(c.on_read(None), ConnectionStep::Close));
}

#[test]
fn server_starts_and_stops_once() {
    let mut s = PipeServer::new();
    assert!(!s.stop());
    assert!(s.start());
    assert!(!s.start());
    assert!(s.stop());
    assert!(!s.stop());
    assert!(s.start());
    s.on_stop_signal();
    assert!(s.start());
}

#[test]
fn documented_messages() {
    assert_eq!(key_request("{\n  \"type\": \"keydown\",\n  \"keycode\": 65,\n  \"modifiers\": 0\n}"), Some((65, 0)));
    let reply = "{\n  \"handled\": true,\n  \"commit\": \"文本\"\n}".to_string();
    let (handled, text) = key_answer(Ok(Some(reply)));
    assert!(handled);
    assert_eq!(key_down_outcome(handled, &text), (true, Some("文本".to_string())));
}

#[test]
fn server_answer_read_by_the_text_service() {
    let text = key_response(&Ok(KeyResult::Handled(wo_context("我"))));
    let (handled, answer) = key_answer(Ok(Some(text)));
    assert!(handled);
    assert_eq!(key_down_outcome(handled, &answer), (true, Some("我".to_string())));
    let (handled, answer) = key_answer(Ok(Some(key_response(&Ok(KeyResult::NotHandled)))));
    assert_eq!(key_down_outcome(handled, &answer), (false, None));
}
