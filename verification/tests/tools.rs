use mimic_shrimp::config::tools::ExecCommandToolConfig;
use mimic_shrimp::tools::{
    build_builtin_registry, finish_exec_command, format_unix_ms, plan_exec_command,
    truncate_output, BuiltinSchemas, BuiltinTool, ExecCommandArgs, ExecOutcome, SchemaPair, Tool,
    ToolRegistry,
};

fn config() -> ExecCommandToolConfig {
    ExecCommandToolConfig {
        enabled: true,
        shell: "/bin/sh".to_string(),
        timeout_secs: 20,
        max_output_chars: 4000,
    }
}

fn tool(name: &str) -> Tool {
    Tool {
        name: name.to_string(),
        description: format!("does {name}"),
        parameters_schema: None,
        response_schema: None,
        long_running: false,
    }
}

fn args(cmd: &str) -> ExecCommandArgs {
    ExecCommandArgs {
        cmd: cmd.to_string(),
        workdir: None,
        timeout_secs: None,
        max_output_chars: None,
        shell: None,
    }
}

#[test]
fn exec_command_runs_and_captures_output() {
    let input = ExecCommandArgs {
        cmd: "printf 'hello'".to_string(),
        workdir: None,
        timeout_secs: Some(5),
        max_output_chars: Some(100),
        shell: Some("/bin/sh".to_string()),
    };
    let plan = plan_exec_command(&input, &config()).expect("command should succeed");
    assert_eq!(plan.shell, "/bin/sh");
    assert_eq!(plan.command, "printf 'hello'");
    assert_eq!(plan.timeout_secs, 5);
    assert_eq!(plan.max_output_chars, 128);
    let outcome = ExecOutcome::Finished {
        success: true,
        exit_code: Some(0),
        stdout: b"hello".to_vec(),
        stderr: vec![],
    };
    let result = finish_exec_command(&plan, &input.workdir, &outcome);
    assert!(result.success);
    assert_eq!(result.exit_code, Some(0));
    assert_eq!(result.stdout, "hello");
}

#[test]
fn truncate_output_limits_text() {
    assert_eq!(truncate_output("abcdef", 4), "abcd...");
    assert_eq!(truncate_output("abc", 4), "abc");
}

#[test]
fn truncation_counts_before_trimming() {
    assert_eq!(truncate_output("  ab  ", 4), "ab...");
    assert_eq!(truncate_output(" 晴天 ", 4), "晴天");
}

#[test]
fn blank_command_is_refused() {
    assert_eq!(plan_exec_command(&args(" \n"), &config()).unwrap_err(), "cmd must not be empty");
}

#[test]
fn limits_are_clamped() {
    let mut input = args(" ls ");
    input.timeout_secs = Some(0);
    input.max_output_chars = Some(1_000_000);
    input.shell = Some("  ".to_string());
    input.workdir = Some(" ".to_string());
    let plan = plan_exec_command(&input, &config()).unwrap();
    assert_eq!(plan.command, "ls");
    assert_eq!(plan.timeout_secs, 1);
    assert_eq!(plan.max_output_chars, 20_000);
    assert_eq!(plan.shell, "/bin/sh");
    assert_eq!(plan.workdir, None);
    input.timeout_secs = Some(500);
    input.workdir = Some("/tmp".to_string());
    let plan = plan_exec_command(&input, &config()).unwrap();
    assert_eq!(plan.timeout_secs, 120);
    assert_eq!(plan.workdir.as_deref(), Some("/tmp"));
    let result = finish_exec_command(&plan, &input.workdir, &ExecOutcome::TimedOut);
    assert!(result.timed_out && !result.success);
    assert_eq!(result.stderr, "command timed out after 120s");
    assert_eq!(result.exit_code, None);
}

#[test]
fn output_that_is_no_text_is_shown_anyway() {
    let input = args("x");
    let plan = plan_exec_command(&input, &config()).unwrap();
    let outcome = ExecOutcome::Finished {
        success: false,
        exit_code: None,
        stdout: vec![0x61, 0xff, 0x62],
        stderr: vec![],
    };
    let result = finish_exec_command(&plan, &input.workdir, &outcome);
    assert_eq!(result.stdout, "a\u{fffd}b");
}

#[test]
fn time_has_three_decimals() {
    assert_eq!(format_unix_ms(1_700_000_000_007), "1700000000.007Z");
    assert_eq!(format_unix_ms(999), "0.999Z");
    assert_eq!(format_unix_ms(0), "0.000Z");
}

#[test]
fn second_tool_of_a_name_is_refused() {
    let refused = ToolRegistry::new(vec![tool("a"), tool("b"), tool("a"), tool("b")]);
    assert_eq!(refused.unwrap_err(), "duplicate tool registration: a");
    assert!(ToolRegistry::new(vec![]).is_ok());
}

#[test]
fn tools_are_listed_by_name() {
    let registry = ToolRegistry::new(vec![tool("b"), tool("ab"), tool("Z"), tool("a")]).unwrap();
    let names: Vec<String> = registry.descriptors().into_iter().map(|d| d.name).collect();
    assert_eq!(names, vec!["Z", "a", "ab", "b"]);
    assert!(registry.has("ab"));
    assert!(!registry.has("c"));
    let schemas = registry.schemas();
    assert_eq!(schemas[0].name, "b");
    assert_eq!(schemas[0].parameters, "{\"properties\":{},\"type\":\"object\"}");
    assert!(!ToolRegistry::default().has("a"));
}

#[test]
fn shell_tool_is_optional() {
    let schemas = || {
        let pair = || SchemaPair { parameters: Some("{}".to_string()), response: None };
        BuiltinSchemas {
            sessions_list: pair(),
            sessions_history: pair(),
            math_add: pair(),
            time_now: pair(),
            english_learning_start_today: pair(),
            english_learning_explain_focus_sentence: pair(),
            english_learning_next_question: pair(),
            english_learning_shadowing_feedback: pair(),
            exec_command: pair(),
        }
    };
    let mut c = config();
    assert!(build_builtin_registry(schemas(), &c).unwrap().has("exec_command"));
    c.enabled = false;
    let registry = build_builtin_registry(schemas(), &c).unwrap();
    assert!(!registry.has("exec_command"));
    let names: Vec<String> = registry.descriptors().into_iter().map(|d| d.name).collect();
    assert_eq!(
        names,
        vec![
            "english_learning_explain_focus_sentence",
            "english_learning_next_question",
            "english_learning_shadowing_feedback",
            "english_learning_start_today",
            "math_add",
            "sessions_history",
            "sessions_list",
            "time_now",
        ]
    );
    assert_eq!(registry.descriptors()[0].parameters_schema, "{}");
    for name in names {
        assert!(registry.has(&name));
        assert_eq!(BuiltinTool::named(&name).map(|tool| tool.name()), Some(name.as_str()));
    }
    assert_eq!(BuiltinTool::named("exec_command"), Some(BuiltinTool::ExecCommand));
    assert_eq!(BuiltinTool::named("english_learning"), None);
}
