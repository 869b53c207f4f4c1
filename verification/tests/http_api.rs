use mimic_shrimp::capability::{
    CapabilityHub, EnglishLearningCapability, StructuredExtractionCapability,
};
use mimic_shrimp::channel::{ChannelKind, InboundTextMessage};
use mimic_shrimp::config::form::FormConfig;
use mimic_shrimp::config::learning::EnglishLearningConfig;
use mimic_shrimp::config::llm::MediaTranslateConfig;
use mimic_shrimp::engine::ToolCallEngine;
use mimic_shrimp::http_api::{
    chat, chat_turn, default_args, default_persist, default_session_id, default_user_id,
    feishu_callback, feishu_turn, history_session, invalid_request_body, invoke_tool,
    merge_action_into_args, preview_bytes, read_callback_body, CallbackReply, ChatRequest,
    FeishuCallbackError, FeishuCallbackErrorKind, FeishuCallbackEvent, JsonArgs, JsonField,
};
use mimic_shrimp::tools::{ToolExecutionResult, ToolRegistry};
use mimic_shrimp::web::pages::{weixin_connect_disabled_page_html, weixin_connect_page_html};
use std::sync::Arc;

fn event() -> InboundTextMessage {
    InboundTextMessage {
        channel: ChannelKind::Feishu,
        event_id: None,
        message_id: "m".to_string(),
        chat_id: None,
        chat_type: None,
        user_id: "u".to_string(),
        session_id: "s".to_string(),
        text: "hi".to_string(),
    }
}

#[test]
fn action_is_merged_into_arguments() {
    let fields = |args: JsonArgs| match args {
        JsonArgs::Object(fields) => {
            fields.into_iter().map(|f| (f.key, f.value)).collect::<Vec<(String, String)>>()
        }
        _ => panic!("no object"),
    };
    let action = || Some("say \"hi\"".to_string());
    let pair = |k: &str, v: &str| (k.to_string(), v.to_string());
    assert_eq!(
        fields(merge_action_into_args(JsonArgs::Null, action())),
        vec![pair("action", "\"say \\\"hi\\\"\"")]
    );
    assert_eq!(
        fields(merge_action_into_args(default_args(), action())),
        vec![pair("action", "\"say \\\"hi\\\"\"")]
    );
    let own = JsonArgs::Object(vec![JsonField { key: "action".to_string(), value: "1".to_string() }]);
    assert_eq!(fields(merge_action_into_args(own, action())), vec![pair("action", "1")]);
    assert!(matches!(merge_action_into_args(JsonArgs::Null, None), JsonArgs::Null));
    let other = merge_action_into_args(JsonArgs::Other("[1]".to_string()), action());
    assert!(matches!(other, JsonArgs::Other(s) if s == "[1]"));
}

#[test]
fn bytes_are_shown() {
    assert_eq!(preview_bytes("晴\n天".as_bytes(), 10), "晴\\n天");
    assert_eq!(preview_bytes(b"abcdef", 2), "ab...");
    assert_eq!(preview_bytes(&[0xff, 0xfe, 0x00], 2), "<non-utf8:3 bytes>");
}

#[test]
fn callback_bodies_are_read() {
    assert_eq!(read_callback_body(b"").unwrap(), "{}");
    assert_eq!(read_callback_body(b"{ \"b\" : [ 1 ] }").unwrap(), "{\"b\":[1]}");
    let refused = read_callback_body(b"{").unwrap_err();
    assert_eq!((refused.status, refused.error_type.as_str()), (400, "invalid_json"));
    assert!(refused.message.starts_with("EOF while parsing"));
}

#[test]
fn callbacks_are_acknowledged_or_refused() {
    match feishu_callback(Ok(FeishuCallbackEvent::Text(event()))) {
        CallbackReply::Body { body, message } => {
            assert_eq!(body, "{\"code\":0,\"msg\":\"ok\"}");
            assert_eq!(message.unwrap().text, "hi");
        }
        _ => panic!("refused"),
    }
    let quiet = [
        FeishuCallbackEvent::Ignored { reason: "r".to_string() },
        FeishuCallbackEvent::Unreadable { error: "e".to_string() },
    ];
    for e in quiet {
        assert!(matches!(feishu_callback(Ok(e)),
            CallbackReply::Body { body, message: None } if body == "{\"code\":0,\"msg\":\"ok\"}"));
    }
    let own = FeishuCallbackEvent::NotMessage { response_body: "{\"challenge\":1}".to_string() };
    assert!(matches!(feishu_callback(Ok(own)),
        CallbackReply::Body { body, message: None } if body == "{\"challenge\":1}"));
    for (kind, status, name) in [
        (FeishuCallbackErrorKind::BadRequest, 400, "feishu_callback_invalid"),
        (FeishuCallbackErrorKind::Unauthorized, 401, "feishu_callback_unauthorized"),
    ] {
        let error = FeishuCallbackError { kind, message: "no".to_string() };
        match feishu_callback(Err(error)) {
            CallbackReply::Refused(e) => {
                assert_eq!((e.status, e.error_type.as_str(), e.message.as_str()), (status, name, "no"));
            }
            _ => panic!("accepted"),
        }
    }
}

#[test]
fn requests_become_turns() {
    let turn = chat_turn(ChatRequest {
        session_id: default_session_id(),
        user_id: default_user_id(),
        message: "hi".to_string(),
        system_prompt: None,
        max_iterations: Some(2),
        persist: default_persist(),
    });
    assert_eq!((turn.session_id.as_str(), turn.user_id.as_str()), ("main", "anonymous"));
    assert!(turn.persist);
    assert_eq!(turn.max_iterations, Some(2));
    assert!(feishu_turn(&event()).persist);
    let failed = chat(Err("boom".to_string())).unwrap_err();
    assert_eq!((failed.status, failed.error_type.as_str()), (500, "tool_loop_failed"));
    let missing = history_session(None).unwrap_err();
    assert_eq!((missing.status, missing.message.as_str()), (400, "missing session_id"));
    assert_eq!(history_session(Some("s".to_string())).unwrap(), "s");
    assert_eq!(invalid_request_body("x").error_type, "invalid_request_body");
    let output = invoke_tool(Ok(ToolExecutionResult {
        function_call_id: "1".to_string(),
        tool_name: "t".to_string(),
        args: "{}".to_string(),
        output: "7".to_string(),
    }));
    assert_eq!(output.unwrap(), "7");
    let refused = invoke_tool(Err("tool not found: t".to_string())).unwrap_err();
    assert_eq!((refused.status, refused.error_type.as_str()), (400, "tool_execution_failed"));
}

#[test]
fn hub_holds_what_it_was_given() {
    let engine = Arc::new(ToolCallEngine::new(
        "app".to_string(),
        ToolRegistry::default(),
        "p".to_string(),
        3,
    ));
    let hub = CapabilityHub::new(
        engine,
        StructuredExtractionCapability { forms: FormConfig { markdown_dir: "d".to_string() } },
        MediaTranslateConfig { api_key: None, base_url: "b".to_string(), model: "m".to_string() },
        EnglishLearningCapability {
            config: EnglishLearningConfig {
                enabled: true,
                scheduler_enabled: false,
                schedule_hour: 9,
                timezone_offset_hours: 8,
                storage_dir: "s".to_string(),
                news_sources: vec![],
                max_feed_items_per_source: 5,
            },
        },
    );
    assert_eq!(hub.conversation().engine.app_name, "app");
    assert_eq!(hub.sessions().engine.max_iterations, 3);
    assert_eq!(hub.tools().engine.tools().len(), 0);
    assert_eq!(hub.extraction().forms.markdown_dir, "d");
    assert_eq!(hub.media_translate().config.model, "m");
    assert_eq!(hub.english_learning().config.schedule_hour, 9);
}

#[test]
fn pages_are_whole() {
    for page in [weixin_connect_page_html(), weixin_connect_disabled_page_html()] {
        assert!(page.starts_with("<!doctype html>"));
        assert!(page.trim_end().ends_with("</html>"));
    }
}
