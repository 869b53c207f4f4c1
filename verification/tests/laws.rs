use mimic_shrimp::channel::weixin::api::{build_cdn_upload_url, make_client_id, wechat_uin};
use mimic_shrimp::channel::weixin::crypto::hex_lower;
use mimic_shrimp::engine::content::{Content, Part};
use mimic_shrimp::engine::stream::{FinishReason, LlmReply};
use mimic_shrimp::engine::turn::TurnStep;
use mimic_shrimp::engine::util::{append_stream_parts, extract_text, preview_text, tool_call_signature};
use mimic_shrimp::engine::{ChatTurnRequest, ToolCallEngine};
use mimic_shrimp::http_api::{default_args, merge_action_into_args, JsonArgs};
use mimic_shrimp::session_store::SessionStore;
use mimic_shrimp::text::{chars_of, join, split_on, split_words, string_of, trim};
use mimic_shrimp::tools::{Tool, ToolRegistry};

fn text(s: &str) -> Part {
    Part::Text { text: s.to_string() }
}

fn engine(max_iterations: usize) -> ToolCallEngine {
    let tool = |name: &str| Tool {
        name: name.to_string(),
        description: String::new(),
        parameters_schema: None,
        response_schema: None,
        long_running: false,
    };
    let registry = ToolRegistry::new(vec![tool("a"), tool("b")]).unwrap();
    ToolCallEngine::new("app".to_string(), registry, "prompt".to_string(), max_iterations)
}

fn ask(n: usize) -> LlmReply {
    LlmReply {
        content: Some(Content {
            role: "model".to_string(),
            parts: vec![Part::FunctionCall {
                name: "a".to_string(),
                args: format!("{{\"n\":{n}}}"),
                id: Some(format!("c{n}")),
            }],
        }),
        usage_metadata: None,
        finish_reason: Some(FinishReason::Stop),
    }
}

#[test]
fn turn_stays_in_order_all_the_way() {
    let request = ChatTurnRequest {
        session_id: "s".to_string(),
        user_id: "u".to_string(),
        message: "hi".to_string(),
        system_prompt: None,
        max_iterations: None,
        persist: false,
    };
    let prior = vec![Content::text("user", "x"), Content::text("model", "y")];
    let mut turn = engine(6).begin_turn(&request, prior);
    let mut events = 0;
    while turn.next_step() != TurnStep::Done {
        match turn.next_step() {
            TurnStep::AskModel => turn.on_reply(&ask(turn.iterations)),
            TurnStep::RunTool => {
                let request = turn.dispatch_tool_call();
                turn.on_tool_result(&Ok("1".to_string()));
                let recorded = turn.tool_calls.last().unwrap();
                assert_eq!(recorded.function_call_id, request.function_call_id);
                assert_eq!(recorded.name, request.tool_name);
                assert_eq!(recorded.args, request.args);
            }
            TurnStep::Synthesize => turn.on_synthesis(None),
            TurnStep::Done => unreachable!(),
        }
        events += 1;
        assert_eq!(turn.transcript.len(), 3 + turn.turn_messages.len());
        for (i, m) in turn.turn_messages.iter().enumerate() {
            assert_eq!(turn.transcript[3 + i].role, m.role);
            assert_eq!(extract_text(&turn.transcript[3 + i]), extract_text(m));
        }
        assert!(turn.iterations <= 6);
    }
    assert_eq!(events, 13);
    let recent: Vec<String> = turn.state.recent_tool_signatures.iter().cloned().collect();
    assert_eq!(recent, vec!["a:{\"n\":2}", "a:{\"n\":3}", "a:{\"n\":4}", "a:{\"n\":5}"]);
    let response = turn.finish(99);
    assert_eq!(response.planning_steps.len(), response.iterations);
    assert_eq!(response.turn_messages.len(), 2 + 2 * response.tool_calls.len());
    assert_eq!(response.answer, response.turn_messages.last().unwrap().text);
    assert_eq!(response.session_message_count, 14);
}

#[test]
fn chunking_makes_no_difference() {
    let all = vec![text("a"), text("b"), Part::Other { payload: "{}".to_string() }, text("c")];
    let mut once: Vec<Part> = Vec::new();
    append_stream_parts(&mut once, &all);
    for cut in 0..=all.len() {
        let mut twice: Vec<Part> = Vec::new();
        append_stream_parts(&mut twice, &all[..cut].to_vec());
        append_stream_parts(&mut twice, &all[cut..].to_vec());
        assert_eq!(format!("{twice:?}"), format!("{once:?}"));
    }
    assert_eq!(once.len(), 3);
}

#[test]
fn signature_does_not_depend_on_writing() {
    assert_eq!(
        tool_call_signature("t", "{\"a\":1,\"b\":[true]}"),
        tool_call_signature("t", " { \"b\" : [ true ] , \"a\" : 1 } ")
    );
    assert_ne!(tool_call_signature("t", "1"), tool_call_signature("t", "2"));
}

#[test]
fn action_is_not_merged_twice() {
    let once = merge_action_into_args(default_args(), Some("first".to_string()));
    let twice = merge_action_into_args(once, Some("second".to_string()));
    match twice {
        JsonArgs::Object(fields) => {
            assert_eq!(fields.len(), 1);
            assert_eq!(fields[0].value, "\"first\"");
        }
        _ => panic!("no object"),
    }
}

#[test]
fn quoted_text_can_be_read_back() {
    for s in ["", "plain", "q\"b\\n\n\t\r\u{8}\u{c}", "\u{1}\u{1f}\u{7f}/晴\u{2028}"] {
        match merge_action_into_args(JsonArgs::Null, Some(s.to_string())) {
            JsonArgs::Object(fields) => {
                let back: String = serde_json::from_str(&fields[0].value).unwrap();
                assert_eq!(back, s);
            }
            _ => panic!("no object"),
        }
    }
    let control = merge_action_into_args(JsonArgs::Null, Some("\u{1}\u{1f}".to_string()));
    assert!(matches!(control, JsonArgs::Object(f) if f[0].value == "\"\\u0001\\u001f\""));
}

#[test]
fn encoded_parameters_can_be_read_back() {
    for s in ["a b&c=d", "晴天%2F", "~-._", "+?#"] {
        let url = build_cdn_upload_url("https://c", s, s);
        let tail = url.strip_prefix("https://c/upload?encrypted_query_param=").unwrap();
        let (param, key) = tail.split_once("&filekey=").unwrap();
        assert_eq!(urlencoding::decode(param).unwrap(), s);
        assert_eq!(urlencoding::decode(key).unwrap(), s);
    }
}

#[test]
fn identifiers_differ_with_their_bytes() {
    let mut a = [7u8; 16];
    let b = a;
    a[15] = 8;
    assert_ne!(make_client_id(&a), make_client_id(&b));
    assert_ne!(hex_lower(&a), hex_lower(&b));
    assert_eq!(wechat_uin(&a), wechat_uin(&b));
    assert_eq!(make_client_id(&b), format!("mimic-shrimp-rs-{}", uuid::Uuid::from_bytes(b)));
}

#[test]
fn splitting_and_joining_are_inverse() {
    for s in ["", ",", "a,b,,c", "x\ny\n"] {
        for sep in [',', '\n'] {
            let pieces = split_on(&chars_of(s), sep);
            assert_eq!(string_of(&join(&pieces, &vec![sep])), s);
        }
    }
}

#[test]
fn words_do_not_depend_on_lines() {
    let words = |s: &str| -> Vec<String> { split_words(&chars_of(s)).iter().map(string_of).collect() };
    for (a, b) in [("one two", "three"), ("  x", " y\n"), ("", "z")] {
        let mut both = words(a);
        both.extend(words(b));
        assert_eq!(words(&format!("{a}\n{b}")), both);
        assert_eq!(words(trim(a)), words(a));
    }
}

#[test]
fn previews_are_short_and_on_one_line() {
    for s in ["", "\n\n", "a\nb\nc", "一二三四五六七八九十"] {
        for limit in 0..12usize {
            let preview = preview_text(s, limit);
            assert!(preview.chars().count() <= limit + 3);
            assert!(!preview.contains('\n'));
        }
    }
}

#[test]
fn what_is_stored_is_read_back() {
    let mut store = SessionStore::default();
    store.append_many("a", &vec![Content::text("user", "1")]);
    store.append_many("b", &vec![Content::text("user", "2")]);
    store.append_many("a", &vec![Content::text("model", "3"), Content::text("user", "4")]);
    let texts = |id: &str, limit| -> Vec<String> {
        store.history(id, limit).into_iter().map(|m| m.text).collect()
    };
    assert_eq!(texts("a", None), vec!["1", "3", "4"]);
    assert_eq!(texts("a", Some(2)), vec!["3", "4"]);
    assert_eq!(texts("b", Some(9)), vec!["2"]);
    assert_eq!(store.snapshot("a").len(), store.session_message_count("a"));
    assert_eq!(store.list(Some(1)).len(), 1);
}
