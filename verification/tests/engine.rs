use mimic_shrimp::config::tools::ExecCommandToolConfig;
use mimic_shrimp::engine::content::{Content, Part};
use mimic_shrimp::engine::plan::{
    plan_candidates, candidate_action_type, candidate_preview, select_action, ActionCandidate,
    PlannedAction,
};
use mimic_shrimp::engine::state::TurnState;
use mimic_shrimp::engine::stream::{
    collect_llm_response, finish_reason_to_string, synthesis_messages, synthesize_final_answer,
    FinishReason, LlmChunk, LlmReply,
};
use mimic_shrimp::engine::turn::{
    build_fallback_content, conclude_turn, store_turn, ChatTurnResponse, ToolCallTrace, TurnStep,
};
use mimic_shrimp::engine::util::{
    append_stream_parts, build_llm_context_window, extract_function_calls, extract_text,
    fresh_uuids, make_call_id, preview_json, preview_text, tool_call_signature,
};
use mimic_shrimp::engine::{ChatTurnRequest, ToolCallEngine};
use mimic_shrimp::session_store::{MessageView, SessionStore};
use mimic_shrimp::tools::{
    build_builtin_registry, BuiltinSchemas, SchemaPair, ToolExecutionRequest, ToolExecutionResult,
};
use std::collections::VecDeque;

fn no_schemas() -> BuiltinSchemas {
    fn pair() -> SchemaPair {
        SchemaPair { parameters: None, response: None }
    }
    BuiltinSchemas {
        sessions_list: pair(),
        sessions_history: pair(),
        math_add: pair(),
        time_now: pair(),
        english_learning_start_today: pair(),
        english_learning_explain_focus_sentence: pair(),
        english_learning_next_question: pair(),
        english_learning_shadowing_feedback: pair(),
        exec_command: pair(),
    }
}

fn exec_tool(enabled: bool) -> ExecCommandToolConfig {
    ExecCommandToolConfig {
        enabled,
        shell: "/bin/sh".to_string(),
        timeout_secs: 20,
        max_output_chars: 4000,
    }
}

fn engine(shell: bool, max_iterations: usize) -> ToolCallEngine {
    let registry = build_builtin_registry(no_schemas(), &exec_tool(shell)).expect("registry");
    ToolCallEngine::new("test-app".to_string(), registry, "use tools".to_string(), max_iterations)
}

fn call(name: &str, args: &str, id: &str) -> Part {
    Part::FunctionCall { name: name.to_string(), args: args.to_string(), id: Some(id.to_string()) }
}

fn text(s: &str) -> Part {
    Part::Text { text: s.to_string() }
}

fn chunk(parts: Vec<Part>, finish: Option<FinishReason>) -> Result<LlmChunk, String> {
    Ok(LlmChunk {
        content: Some(Content { role: "model".to_string(), parts }),
        usage_metadata: None,
        finish_reason: finish,
    })
}

fn reply(parts: Vec<Part>) -> LlmReply {
    collect_llm_response(&vec![chunk(parts, Some(FinishReason::Stop))]).expect("reply")
}

fn request(message: &str, persist: bool) -> ChatTurnRequest {
    ChatTurnRequest {
        session_id: "main".to_string(),
        user_id: "tester".to_string(),
        message: message.to_string(),
        system_prompt: None,
        max_iterations: None,
        persist,
    }
}

fn run_tool(engine: &ToolCallEngine, request: ToolExecutionRequest) -> Result<ToolExecutionResult, String> {
    let context = engine.registry.prepare(&request)?;
    assert_eq!(context.agent_name, "tool-call-engine");
    let output = match request.tool_name.as_str() {
        "math_add" => {
            let value: serde_json::Value = serde_json::from_str(&request.args).map_err(|e| e.to_string())?;
            let sum = value["a"].as_f64().unwrap() + value["b"].as_f64().unwrap();
            format!("{{\"sum\":{sum:?}}}")
        }
        "exec_command" => "{\"stdout\":\"{\\\"weather\\\":\\\"晴\\\",\\\"temp\\\":25}\"}".to_string(),
        other => return Err(format!("{other} is down")),
    };
    Ok(request.completed(output))
}

fn run_turn(
    engine: &ToolCallEngine,
    store: &mut SessionStore,
    request: ChatTurnRequest,
    replies: Vec<LlmReply>,
    synthesis: Option<Content>,
) -> ChatTurnResponse {
    let mut replies = VecDeque::from(replies);
    let mut turn = engine.begin_turn(&request, store.snapshot(&request.session_id));
    let mut synthesis = synthesis;
    loop {
        match turn.next_step() {
            TurnStep::AskModel => turn.on_reply(&replies.pop_front().expect("missing scripted response")),
            TurnStep::RunTool => {
                let outcome = run_tool(engine, turn.dispatch_tool_call());
                turn.on_tool_result(&outcome.map(|result| result.output));
            }
            TurnStep::Synthesize => turn.on_synthesis(synthesis.take()),
            TurnStep::Done => break,
        }
    }
    conclude_turn(store, Ok(turn)).expect("response")
}

#[test]
fn executes_iterative_plan_execute_loop_and_persists_turn() {
    let engine = engine(false, 4);
    let mut store = SessionStore::default();
    let response = run_turn(
        &engine,
        &mut store,
        request("what is 2 + 3?", true),
        vec![
            reply(vec![call("math_add", "{\"a\":2.0,\"b\":3.0}", "call_math")]),
            reply(vec![text("2 + 3 = 5")]),
        ],
        None,
    );
    assert_eq!(response.answer, "2 + 3 = 5");
    assert_eq!(response.tool_calls.len(), 1);
    assert_eq!(response.tool_calls[0].status, "ok");
    assert_eq!(response.tool_calls[0].output, "{\"sum\":5.0}");
    assert_eq!(response.planning_steps.len(), 2);
    let history = store.history("main", None);
    assert_eq!(history.len(), 4);
    assert_eq!(history[1].kind, "tool_call");
    assert_eq!(history[2].kind, "tool_result");
    assert_eq!(response.session_message_count, 4);
    assert_eq!(response.finish_reason.as_deref(), Some("stop"));
    assert_eq!(store.history("main", Some(1))[0].text, "2 + 3 = 5");
    assert!(store.history("other", None).is_empty());
    assert_eq!(store.list(None)[0].last_message_preview.as_deref(), Some("2 + 3 = 5"));
}

#[test]
fn commits_only_one_tool_per_iteration_even_if_model_emits_multiple_calls() {
    let engine = engine(false, 4);
    let mut store = SessionStore::default();
    let response = run_turn(
        &engine,
        &mut store,
        request("do one thing", false),
        vec![
            reply(vec![
                call("math_add", "{\"a\":1.0,\"b\":2.0}", "call_math"),
                call("time_now", "{}", "call_time"),
            ]),
            reply(vec![text("done")]),
        ],
        None,
    );
    assert_eq!(response.tool_calls.len(), 1);
    assert_eq!(response.tool_calls[0].name, "math_add");
    assert_eq!(response.planning_steps[0].candidates.len(), 3);
    assert!(response.planning_steps[0].candidates[1].preview.contains("time_now"));
    assert_eq!(response.session_message_count, 4);
    assert!(store.history("main", None).is_empty());
}

#[test]
fn merges_streamed_text_parts_without_inserting_newlines() {
    let engine = engine(false, 4);
    let mut store = SessionStore::default();
    let response = run_turn(
        &engine,
        &mut store,
        request("show history", false),
        vec![reply(vec![text("根据"), text("会话历史"), text("，我看到 1 条记录。")])],
        None,
    );
    assert_eq!(response.answer, "根据会话历史，我看到 1 条记录。");
}

#[test]
fn converges_after_successful_exec_command_results() {
    let engine = engine(true, 12);
    let mut store = SessionStore::default();
    let response = run_turn(
        &engine,
        &mut store,
        request("weather", false),
        vec![
            reply(vec![call(
                "exec_command",
                "{\"cmd\":\"printf '{\\\"weather\\\":\\\"晴\\\",\\\"temp\\\":25}'\"}",
                "call_exec_1",
            )]),
            reply(vec![text("北京今天天气晴，气温25度。")]),
        ],
        None,
    );
    assert_eq!(response.tool_calls.len(), 1);
    assert!(
        response.answer.contains("晴"),
        "answer should contain weather result: {}",
        response.answer
    );
}

#[test]
fn detects_a_b_ping_pong_repeats() {
    let mut state = TurnState::default();
    state.push_tool_signature("tool:A".to_string());
    state.push_tool_signature("tool:B".to_string());
    state.push_tool_signature("tool:A".to_string());

    assert!(state.would_ping_pong("tool:B"));
    assert!(!state.would_ping_pong("tool:C"));
}

#[test]
fn window_forgets_the_oldest_call() {
    let mut state = TurnState::default();
    for s in ["a", "b", "c", "d", "e"] {
        state.push_tool_signature(s.to_string());
    }
    assert_eq!(state.recent_tool_signatures, VecDeque::from(vec![
        "b".to_string(),
        "c".to_string(),
        "d".to_string(),
        "e".to_string(),
    ]));
    assert!(state.would_repeat_exact("e"));
    assert!(!state.would_repeat_exact("d"));
}

#[test]
fn error_budget_ends_the_turn() {
    let engine = engine(false, 4);
    let mut store = SessionStore::default();
    let response = run_turn(
        &engine,
        &mut store,
        request("what time is it?", false),
        vec![
            reply(vec![call("time_now", "{}", "c1")]),
            reply(vec![call("time_now", "{\"zone\": \"utc\"}", "c2")]),
        ],
        None,
    );
    assert_eq!(response.finish_reason.as_deref(), Some("error_budget"));
    assert_eq!(response.tool_calls[0].status, "error");
    assert_eq!(
        response.tool_calls[0].output,
        "{\"message\":\"time_now is down\",\"status\":\"error\"}"
    );
    let line = "time_now => {\"message\":\"time_now is down\",\"status\":\"error\"}";
    assert_eq!(
        response.answer,
        format!("I stopped because error budget exhausted before the turn converged. Recent tool observations: {line}; {line}")
    );
    assert_eq!(
        response.planning_steps[0].observation.as_deref(),
        Some("tool failed: {\"message\":\"time_now is down\",\"status\":\"error\"}")
    );
}

#[test]
fn unknown_tool_is_told_to_the_model() {
    let engine = engine(false, 1);
    let mut store = SessionStore::default();
    let response = run_turn(
        &engine,
        &mut store,
        request("go", false),
        vec![reply(vec![call("nope", "{}", "c1")])],
        Some(Content::text("model", "sorry")),
    );
    assert_eq!(response.tool_calls[0].output, "{\"message\":\"tool not found: nope\",\"status\":\"error\"}");
    assert_eq!(response.answer, "sorry");
    assert_eq!(response.finish_reason.as_deref(), Some("max_iterations"));
    assert_eq!(response.iterations, 1);
    assert_eq!(response.turn_messages.len(), 4);
}

#[test]
fn turn_without_iterations_falls_back() {
    let engine = engine(false, 4);
    let mut store = SessionStore::default();
    let mut asked = request("go", false);
    asked.max_iterations = Some(0);
    let response = run_turn(&engine, &mut store, asked, vec![], None);
    assert_eq!(
        response.answer,
        "I stopped because max_iterations reached before selecting a final answer. Please clarify the next objective."
    );
    assert_eq!(response.iterations, 0);
    assert_eq!(response.planning_steps.len(), 0);
}

#[test]
fn repeated_call_is_rejected_for_a_question() {
    let engine = engine(false, 4);
    let mut store = SessionStore::default();
    let same = || reply(vec![call("math_add", "{\"a\":1.0,\"b\":2.0}", "c")]);
    let response =
        run_turn(&engine, &mut store, request("again", false), vec![same(), same()], None);
    assert_eq!(response.finish_reason.as_deref(), Some("need_user"));
    assert_eq!(
        response.answer,
        "I need a bit more context to continue safely. What exact result should the next step produce?"
    );
    let step = &response.planning_steps[1];
    assert_eq!(
        step.candidates[0].reason,
        "rejected by repeated-call detection (same tool + same args)"
    );
    assert_eq!(step.candidates[1].action_type, "ask_user");
    assert!(step.candidates[1].selected);
    assert_eq!(step.observation.as_deref(), Some("asking user for clarification"));
}

#[test]
fn empty_reply_asks_the_user() {
    let engine = engine(false, 4);
    let mut store = SessionStore::default();
    let empty = LlmReply { content: None, usage_metadata: None, finish_reason: None };
    let response = run_turn(&engine, &mut store, request("hm", false), vec![empty], None);
    assert_eq!(response.finish_reason.as_deref(), Some("need_user"));
}

#[test]
fn history_is_probed_where_there_is_one() {
    let engine = engine(false, 4);
    let mut store = SessionStore::default();
    store.append_many("main", &vec![Content::text("user", "hi")]);
    let mut turn = engine.begin_turn(&request("hello", false), store.snapshot("main"));
    assert_eq!(turn.transcript.len(), 3);
    turn.on_reply(&reply(vec![]));
    assert_eq!(turn.next_step(), TurnStep::RunTool);
    let asked = turn.dispatch_tool_call();
    assert_eq!(asked.tool_name, "sessions_history");
    assert_eq!(asked.args, "{\"limit\":6,\"session_id\":\"main\"}");
    assert!(asked.function_call_id.starts_with("call-"));
    assert_eq!(asked.function_call_id.len(), 5 + 36);
    assert_eq!(asked.invocation_id.len(), 36);
    assert_eq!(asked.user_id, "tester");
}

#[test]
fn candidates_are_deduplicated_and_limited() {
    let content = Content {
        role: "model".to_string(),
        parts: vec![
            call("a", "{\"x\": 1}", "1"),
            call("a", "{ \"x\":1 }", "2"),
            call("b", "{}", "3"),
            text(" hello "),
        ],
    };
    let uuids = fresh_uuids(5);
    let three = plan_candidates("s", &content, &uuids, true, 3);
    let labels: Vec<&str> = three.iter().map(|c| c.label.as_str()).collect();
    assert_eq!(labels, vec!["tool:a", "tool:b", "answer:direct"]);
    let two = plan_candidates("s", &content, &uuids, true, 2);
    assert_eq!(two.len(), 2);
    let five = plan_candidates("s", &content, &uuids, true, 5);
    assert_eq!(five[3].label, "context:history");
    assert_eq!(five[4].label, "clarify:user");
    let without = plan_candidates("s", &content, &uuids, false, 5);
    assert_eq!(without[3].label, "clarify:user");
    assert_eq!(without.len(), 4);
}

#[test]
fn first_candidate_is_taken_where_nothing_else_is_left() {
    let candidates = vec![
        ActionCandidate {
            label: "l".to_string(),
            reason: "r".to_string(),
            action: PlannedAction::Answer { text: " ".to_string() },
        },
        ActionCandidate {
            label: "m".to_string(),
            reason: "q".to_string(),
            action: PlannedAction::AskUser { question: "".to_string() },
        },
    ];
    let selected = select_action(candidates, &TurnState::default(), 4);
    assert_eq!(selected.selection_reason, "");
    assert!(selected.candidate_traces[0].selected);
    assert_eq!(
        selected.candidate_traces[1].reason,
        "rejected because the clarification question is empty"
    );
}

#[test]
fn call_limit_and_ping_pong_are_told() {
    fn three() -> Vec<ActionCandidate> {
        let content = Content {
            role: "model".to_string(),
            parts: vec![call("b", "{}", "1"), text("so")],
        };
        plan_candidates("s", &content, &fresh_uuids(3), false, 3)
    }
    let mut state = TurnState::default();
    let selected = select_action(three(), &state, 0);
    assert_eq!(selected.candidate_traces[0].reason, "rejected by max_tool_calls_per_turn guard");
    assert_eq!(
        selected.selection_reason,
        "model produced a direct answer candidate; selected the direct answer because no earlier viable tool candidate won"
    );
    assert_eq!(selected.candidate_traces[2].reason, "not selected because an earlier candidate won");
    for s in ["a:{}", "b:{}", "a:{}"] {
        state.push_tool_signature(s.to_string());
    }
    let selected = select_action(three(), &state, 9);
    assert_eq!(
        selected.candidate_traces[0].reason,
        "rejected by repeated-call detection (A/B ping-pong)"
    );
    let selected = select_action(three(), &TurnState::default(), 9);
    assert_eq!(
        selected.selection_reason,
        "model proposed an immediate tool step; selected the first viable committed tool step"
    );
    assert_eq!(selected.selected_preview, "b({})");
}

#[test]
fn actions_are_named_and_shown() {
    let answer = PlannedAction::Answer { text: "one\ntwo".to_string() };
    assert_eq!(candidate_action_type(&answer), "answer");
    assert_eq!(candidate_preview(&answer), "one\\ntwo");
}

#[test]
fn previews_are_cut() {
    assert_eq!(preview_text("  a\nb  ", 10), "a\\nb");
    assert_eq!(preview_text("abcdef", 3), "abc...");
    assert_eq!(preview_text("晴天晴天", 4), "晴天晴天");
    assert_eq!(preview_json("{ \"b\": 1, \"a\": [ ] }", 50), "{\"a\":[],\"b\":1}");
    assert_eq!(preview_json("{", 50), "<invalid-json>");
    assert_eq!(tool_call_signature("t", " [1, 2] "), "t:[1,2]");
}

#[test]
fn calls_without_identifier_get_one() {
    let content = Content {
        role: "model".to_string(),
        parts: vec![
            text("x"),
            Part::FunctionCall { name: "n".to_string(), args: "{}".to_string(), id: None },
            call("m", "[]", "given"),
        ],
    };
    let uuids = vec![[0u8; 16], [0xabu8; 16], [1u8; 16]];
    let calls = extract_function_calls(&content, &uuids);
    assert_eq!(calls.len(), 2);
    assert_eq!(calls[0].function_call_id, "call-abababab-abab-abab-abab-abababababab-1");
    assert_eq!(calls[1].function_call_id, "given");
    assert_eq!(make_call_id(&[0u8; 16], 12), "call-00000000-0000-0000-0000-000000000000-12");
}

#[test]
fn fresh_uuids_are_version_four() {
    for uuid in fresh_uuids(20) {
        assert_eq!(uuid[6] >> 4, 4);
        assert_eq!(uuid[8] >> 6, 2);
    }
}

#[test]
fn streams_are_put_together() {
    let items = vec![
        Ok(LlmChunk {
            content: Some(Content { role: "model".to_string(), parts: vec![text("he"), text("l")] }),
            usage_metadata: Some("{\"n\":1}".to_string()),
            finish_reason: None,
        }),
        chunk(vec![text("lo"), call("t", "{}", "1"), text("!")], Some(FinishReason::MaxTokens)),
        Ok(LlmChunk {
            content: None,
            usage_metadata: Some("{\"n\":2}".to_string()),
            finish_reason: Some(FinishReason::Stop),
        }),
    ];
    let reply = collect_llm_response(&items).expect("reply");
    let content = reply.content.expect("content");
    assert_eq!(content.parts.len(), 3);
    assert_eq!(extract_text(&content), "hello!");
    assert_eq!(reply.usage_metadata.as_deref(), Some("{\"n\":1}"));
    assert_eq!(reply.finish_reason, Some(FinishReason::Stop));
}

#[test]
fn broken_streams_are_errors() {
    assert_eq!(
        collect_llm_response(&vec![]).unwrap_err(),
        "llm returned an empty response stream"
    );
    let items = vec![chunk(vec![text("x")], None), Err("boom".to_string()), Err("bang".to_string())];
    assert_eq!(collect_llm_response(&items).unwrap_err(), "boom");
    let answer = synthesize_final_answer(&items).expect("answer");
    assert_eq!(extract_text(&answer), "x");
    assert!(synthesize_final_answer(&vec![chunk(vec![text("  ")], None)]).is_none());
}

#[test]
fn finish_reasons_have_names() {
    let names: Vec<String> = [
        FinishReason::Stop,
        FinishReason::MaxTokens,
        FinishReason::Safety,
        FinishReason::Recitation,
        FinishReason::Other,
    ]
    .iter()
    .map(finish_reason_to_string)
    .collect();
    assert_eq!(names, vec!["stop", "max_tokens", "safety", "recitation", "other"]);
}

#[test]
fn synthesis_asks_in_the_users_name() {
    let messages = synthesis_messages(&vec![Content::text("user", "q")]);
    assert_eq!(messages.len(), 2);
    assert_eq!(messages[1].role, "user");
    assert!(extract_text(&messages[1]).starts_with("Based on all the steps"));
}

#[test]
fn merging_keeps_calls_apart() {
    let mut parts = vec![text("a")];
    append_stream_parts(&mut parts, &vec![text("b"), call("t", "{}", "1"), text("c"), text("d")]);
    assert_eq!(parts.len(), 3);
    let content = Content { role: "model".to_string(), parts };
    assert_eq!(extract_text(&content), "abcd");
}

#[test]
fn context_window_keeps_system_and_drops_orphans() {
    let transcript: VecDeque<Content> = ["system", "user", "model", "tool", "function", "model", "user"]
        .iter()
        .map(|role| Content::text(role, role))
        .collect();
    let roles = |max: usize| -> Vec<String> {
        build_llm_context_window(&transcript, max).into_iter().map(|c| c.role).collect()
    };
    assert_eq!(roles(0).len(), 0);
    assert_eq!(roles(1), vec!["system"]);
    assert_eq!(roles(4), vec!["system", "model", "user"]);
    assert_eq!(roles(5), vec!["system", "model", "user"]);
    assert_eq!(roles(6), vec!["system", "model", "tool", "function", "model", "user"]);
    assert_eq!(roles(7).len(), 7);
    let bare: VecDeque<Content> =
        ["user", "tool", "model"].iter().map(|role| Content::text(role, role)).collect();
    assert_eq!(build_llm_context_window(&bare, 2).len(), 1);
    assert!(build_llm_context_window(&VecDeque::new(), 3).is_empty());
}

#[test]
fn fallback_names_the_last_two_calls() {
    let trace = |name: &str| ToolCallTrace {
        function_call_id: "1".to_string(),
        name: name.to_string(),
        args: "{}".to_string(),
        status: "ok".to_string(),
        output: "{ \"n\" : 1 }".to_string(),
    };
    let one = build_fallback_content("x", &vec![trace("a")]);
    assert_eq!(
        extract_text(&one),
        "I stopped because x. Recent tool observations: a => {\"n\":1}"
    );
    let three = build_fallback_content("x", &vec![trace("a"), trace("b"), trace("c")]);
    assert_eq!(
        extract_text(&three),
        "I stopped because x. Recent tool observations: c => {\"n\":1}; b => {\"n\":1}"
    );
}

#[test]
fn planner_prompt_names_the_limit() {
    let engine = engine(false, 4);
    let prompt = engine.build_planner_system_prompt("base");
    assert!(prompt.starts_with("base\n\nLoop policy:\n"));
    assert!(prompt.contains("Consider up to 3 immediate next-step directions"));
}

#[test]
fn blank_system_prompt_counts_as_none() {
    let engine = engine(false, 4);
    let mut asked = request("x", false);
    asked.system_prompt = Some("  ".to_string());
    let turn = engine.begin_turn(&asked, vec![]);
    assert!(extract_text(&turn.transcript[0]).starts_with("use tools"));
    asked.system_prompt = Some("be brief".to_string());
    let turn = engine.begin_turn(&asked, vec![]);
    assert!(extract_text(&turn.transcript[0]).starts_with("be brief\n"));
    assert!(!turn.probe_history);
}

#[test]
fn direct_calls_have_fresh_identifiers() {
    let engine = engine(false, 4);
    let ask = || {
        engine.invoke_tool(
            "u".to_string(),
            "s".to_string(),
            "math_add".to_string(),
            "{}".to_string(),
        )
    };
    let a = ask();
    let b = ask();
    assert_ne!(a.invocation_id, b.invocation_id);
    assert_ne!(a.invocation_id, a.function_call_id);
    assert_eq!(a.user_content.role, "user");
    assert_eq!(engine.tools().len(), 8);
    let c = engine.invoke_tool_with(
        "u".to_string(),
        "s".to_string(),
        "math_add".to_string(),
        "{}".to_string(),
        &[0x11; 16],
        &[0x22; 16],
    );
    assert_eq!(c.app_name, "test-app");
    assert_eq!((c.user_id.as_str(), c.session_id.as_str()), ("u", "s"));
    assert_eq!((c.tool_name.as_str(), c.args.as_str()), ("math_add", "{}"));
    assert_eq!(c.invocation_id, "11111111-1111-1111-1111-111111111111");
    assert_eq!(c.function_call_id, "22222222-2222-2222-2222-222222222222");
    assert_eq!(c.user_content.role, "user");
    assert_eq!(extract_text(&c.user_content), "direct tool invocation");
}

#[test]
fn recorded_calls_never_circle() {
    let engine = engine(false, 6);
    let mut store = SessionStore::default();
    let three = || {
        reply(vec![
            call("math_add", "{\"a\":1.0,\"b\":1.0}", "x"),
            call("math_add", "{\"a\":2.0,\"b\":2.0}", "y"),
            call("math_add", "{\"a\":3.0,\"b\":3.0}", "z"),
        ])
    };
    let response = run_turn(
        &engine,
        &mut store,
        request("go on", false),
        vec![three(), three(), three(), three(), three(), three()],
        None,
    );
    let ids: Vec<&str> = response.tool_calls.iter().map(|c| c.function_call_id.as_str()).collect();
    assert_eq!(ids, vec!["x", "y", "x", "z", "x", "y"]);
    let made: Vec<String> =
        response.tool_calls.iter().map(|c| tool_call_signature(&c.name, &c.args)).collect();
    assert!(made.windows(2).all(|w| w[0] != w[1]));
    assert!(made.windows(4).all(|w| w[0] != w[2] || w[1] != w[3]));
    for (i, trace) in response.tool_calls.iter().enumerate() {
        assert!(response.planning_steps[i].selected_action.starts_with(&trace.name));
        assert_eq!(response.turn_messages[1 + 2 * i].kind, "tool_call");
        assert_eq!(response.turn_messages[2 + 2 * i].kind, "tool_result");
    }
    assert_eq!(response.finish_reason.as_deref(), Some("max_iterations"));
}

#[test]
fn messages_are_shown_by_kind() {
    let m = MessageView::of(&Content::text("user", " hi "));
    assert_eq!((m.role.as_str(), m.kind.as_str(), m.text.as_str()), ("user", "text", "hi"));
}

#[test]
fn turn_is_stored_only_where_asked_for_and_only_when_it_ended() {
    let engine = engine(false, 4);
    let mut store = SessionStore::default();
    store.append_many("other", &vec![Content::text("user", "x")]);
    let held = |persist: bool, store: &SessionStore| {
        let request = request("hi", persist);
        let mut turn = engine.begin_turn(&request, store.snapshot("main"));
        turn.on_reply(&reply(vec![text("hello")]));
        assert_eq!(turn.next_step(), TurnStep::Done);
        turn
    };

    let unstored = held(false, &store);
    assert_eq!(store_turn(&mut store, unstored).session_message_count, 2);
    assert_eq!(store.session_message_count("main"), 0);
    assert_eq!(store.list(None).len(), 1);

    let first = held(true, &store);
    assert_eq!(store_turn(&mut store, first).session_message_count, 2);
    let second = held(true, &store);
    assert_eq!(second.transcript.len(), 5);
    assert_eq!(store_turn(&mut store, second).session_message_count, 4);
    assert_eq!(store.session_message_count("other"), 1);
    let ids: Vec<String> = store.list(None).into_iter().map(|s| s.session_id).collect();
    assert_eq!(ids, vec!["other", "main"]);

    let failed = conclude_turn(&mut store, Err("model is down".to_string()));
    assert_eq!(failed.err().as_deref(), Some("model is down"));
    assert_eq!(store.session_message_count("main"), 4);
    assert_eq!(store.list(None).len(), 2);
}

#[test]
fn every_round_selects_exactly_one_candidate() {
    let engine = engine(false, 4);
    let mut store = SessionStore::default();
    let same = || reply(vec![call("math_add", "{\"a\":1.0,\"b\":2.0}", "c"), call("time_now", "{}", "d")]);
    let response = run_turn(
        &engine,
        &mut store,
        request("go on", true),
        vec![same(), same(), same(), same()],
        None,
    );
    for step in &response.planning_steps {
        let selected: Vec<_> = step.candidates.iter().filter(|c| c.selected).collect();
        assert_eq!(selected.len(), 1);
        assert_eq!(selected[0].preview, step.selected_action);
        assert_eq!(selected[0].reason, step.selection_reason);
    }
    let names: Vec<&str> = response.tool_calls.iter().map(|c| c.name.as_str()).collect();
    assert_eq!(names, vec!["math_add", "time_now", "math_add"]);
    assert_eq!(response.tool_calls[1].status, "error");
    assert_eq!(response.finish_reason.as_deref(), Some("need_user"));
}
