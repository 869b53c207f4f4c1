use mimic_shrimp::config::app::{AppConfig, FloatReading, FloatSettings};
use mimic_shrimp::config::env::{Env, EnvVar};
use mimic_shrimp::config::llm::LlmProvider;

fn env(pairs: &[(&str, &str)]) -> Env {
    Env {
        vars: pairs
            .iter()
            .map(|(name, value)| EnvVar { name: name.to_string(), value: value.to_string() })
            .collect(),
    }
}

fn provider() -> LlmProvider {
    LlmProvider {
        name: "glm".to_string(),
        default_model: "glm-4".to_string(),
        default_base_url: None,
        base_url_envs: vec!["LLM_BASE_URL".to_string()],
        api_key_envs: vec!["LLM_API_KEY".to_string(), "GLM_API_KEY".to_string()],
    }
}

const UNSET: FloatSettings = FloatSettings { speed: FloatReading::Unset, gain: FloatReading::Unset };

fn load(pairs: &[(&str, &str)]) -> Result<AppConfig, String> {
    let mut all = vec![("GLM_API_KEY", "key")];
    all.extend_from_slice(pairs);
    AppConfig::from_env(&env(&all), &provider(), UNSET)
}

#[test]
fn defaults_are_filled_in() {
    let c = load(&[]).unwrap();
    assert_eq!(c.app_name, "mimic-shrimp-rs");
    assert_eq!(c.server_addr, "127.0.0.1:7878");
    assert_eq!((c.max_iterations, c.max_context_messages), (12, 20));
    assert_eq!(c.llm.api_key, "key");
    assert_eq!(c.llm.model, "glm-4");
    assert_eq!(c.llm.base_url, None);
    assert_eq!(c.forms.markdown_dir, "./forms");
    assert_eq!(c.media_translate.api_key.as_deref(), Some("key"));
    assert_eq!(c.speech_synthesis.voice.as_deref(), Some("alex"));
    assert_eq!(f32::from_bits(c.speech_synthesis.speed), 1.0);
    assert_eq!(f32::from_bits(c.speech_synthesis.gain), 0.0);
    assert_eq!(c.speech_synthesis.sample_rate, None);
    assert!(c.english_learning.enabled && c.english_learning.scheduler_enabled);
    assert_eq!(c.english_learning.schedule_hour, 9);
    assert_eq!(c.english_learning.timezone_offset_hours, 8);
    assert_eq!(c.english_learning.max_feed_items_per_source, 5);
    assert_eq!(
        c.english_learning.news_sources,
        vec!["https://feeds.bbci.co.uk/news/world/rss.xml"]
    );
    assert!(c.feishu_callback.require_mention);
    assert_eq!(c.feishu_callback.audio_target_lang, "zh");
    assert!(!c.weixin_channel.enabled);
    assert_eq!(c.weixin_channel.login_timeout_ms, 480_000);
    assert_eq!(c.weixin_channel.supervisor_interval_ms, 30_000);
    assert_eq!(c.weixin_channel.bot_type, "3");
    assert!(!c.exec_command_tool.enabled);
    assert_eq!(c.exec_command_tool.max_output_chars, 4000);
}

#[test]
fn values_are_taken_from_the_environment() {
    let c = load(&[
        ("LLM_MODEL", "m"),
        ("LLM_BASE_URL", " https://llm "),
        ("MAX_TOOL_ITERATIONS", "+3"),
        ("ENGLISH_LEARNING_TZ_OFFSET_HOURS", "-23"),
        ("ENGLISH_LEARNING_NEWS_SOURCES", "a, ,b ,"),
        ("ENGLISH_LEARNING_ENABLED", " No "),
        ("SPEECH_SYNTHESIS_SAMPLE_RATE", "24000"),
        ("SPEECH_SYNTHESIS_VOICE", "  "),
        ("FEISHU_APP_ID", " "),
        ("APP_ID", "app"),
        ("WEIXIN_ENABLED", "1"),
        ("WEIXIN_ROUTE_TAG", " r "),
        ("WEIXIN_RETRY_DELAY_MS", "7"),
        ("EXEC_COMMAND_TOOL_ENABLED", "TRUE"),
    ])
    .unwrap();
    assert_eq!(c.llm.model, "m");
    assert_eq!(c.llm.base_url.as_deref(), Some("https://llm"));
    assert_eq!(c.max_iterations, 3);
    assert_eq!(c.english_learning.timezone_offset_hours, -23);
    assert_eq!(c.english_learning.news_sources, vec!["a", "b"]);
    assert!(!c.english_learning.enabled);
    assert_eq!(c.speech_synthesis.sample_rate, Some(24_000));
    assert_eq!(c.speech_synthesis.voice.as_deref(), Some("alex"));
    assert_eq!(c.feishu_callback.app_id.as_deref(), Some("app"));
    assert!(c.weixin_channel.enabled);
    assert_eq!(c.weixin_channel.route_tag.as_deref(), Some("r"));
    assert_eq!(c.weixin_channel.retry_delay_ms, 7);
    assert!(c.exec_command_tool.enabled);
}

#[test]
fn bad_values_are_told() {
    let cases = [
        ("MAX_TOOL_ITERATIONS", "x", "invalid MAX_TOOL_ITERATIONS: x"),
        ("MAX_TOOL_ITERATIONS", "0", "MAX_TOOL_ITERATIONS must be greater than 0"),
        ("MAX_CONTEXT_MESSAGES", "", "invalid MAX_CONTEXT_MESSAGES: "),
        ("MAX_CONTEXT_MESSAGES", "0", "MAX_CONTEXT_MESSAGES must be greater than 0"),
        ("ENGLISH_LEARNING_SCHEDULE_HOUR", "-1", "invalid ENGLISH_LEARNING_SCHEDULE_HOUR: -1"),
        (
            "ENGLISH_LEARNING_SCHEDULE_HOUR",
            "24",
            "ENGLISH_LEARNING_SCHEDULE_HOUR must be between 0 and 23",
        ),
        ("ENGLISH_LEARNING_TZ_OFFSET_HOURS", "e", "invalid ENGLISH_LEARNING_TZ_OFFSET_HOURS: e"),
        (
            "ENGLISH_LEARNING_TZ_OFFSET_HOURS",
            "-24",
            "ENGLISH_LEARNING_TZ_OFFSET_HOURS must be between -23 and 23",
        ),
        ("SPEECH_SYNTHESIS_SAMPLE_RATE", "4294967296", "invalid SPEECH_SYNTHESIS_SAMPLE_RATE: 4294967296"),
        ("SPEECH_SYNTHESIS_STREAM", "maybe", "invalid SPEECH_SYNTHESIS_STREAM, expected true/false"),
        ("ENGLISH_LEARNING_ENABLED", "", "invalid ENGLISH_LEARNING_ENABLED, expected true/false"),
        (
            "ENGLISH_LEARNING_SCHEDULER_ENABLED",
            "y",
            "invalid ENGLISH_LEARNING_SCHEDULER_ENABLED, expected true/false",
        ),
        (
            "ENGLISH_LEARNING_MAX_FEED_ITEMS_PER_SOURCE",
            "five",
            "invalid ENGLISH_LEARNING_MAX_FEED_ITEMS_PER_SOURCE, expected integer",
        ),
        ("FEISHU_BOT_REQUIRE_MENTION", "2", "invalid FEISHU_BOT_REQUIRE_MENTION, expected true/false"),
        ("WEIXIN_ENABLED", "2", "invalid WEIXIN_ENABLED, expected true/false"),
        ("WEIXIN_LOGIN_TIMEOUT_MS", "s", "invalid WEIXIN_LOGIN_TIMEOUT_MS, expected integer"),
        ("WEIXIN_LONG_POLL_TIMEOUT_MS", "s", "invalid WEIXIN_LONG_POLL_TIMEOUT_MS, expected integer"),
        ("WEIXIN_BACKOFF_DELAY_MS", "s", "invalid WEIXIN_BACKOFF_DELAY_MS, expected integer"),
        ("WEIXIN_SESSION_PAUSE_MINUTES", "s", "invalid WEIXIN_SESSION_PAUSE_MINUTES, expected integer"),
        (
            "WEIXIN_SUPERVISOR_RESTART_GAP_MS",
            "18446744073709551616",
            "invalid WEIXIN_SUPERVISOR_RESTART_GAP_MS, expected integer",
        ),
        ("EXEC_COMMAND_TOOL_TIMEOUT_SECS", "s", "invalid EXEC_COMMAND_TOOL_TIMEOUT_SECS, expected integer"),
        (
            "EXEC_COMMAND_TOOL_MAX_OUTPUT_CHARS",
            "1.5",
            "invalid EXEC_COMMAND_TOOL_MAX_OUTPUT_CHARS, expected integer",
        ),
    ];
    for (name, value, message) in cases {
        assert_eq!(load(&[(name, value)]).unwrap_err(), message);
    }
    assert_eq!(
        AppConfig::from_env(&env(&[("LLM_API_KEY", " ")]), &provider(), UNSET).unwrap_err(),
        "missing one of LLM_API_KEY, GLM_API_KEY"
    );
}

#[test]
fn first_problem_is_told() {
    assert_eq!(
        load(&[("WEIXIN_ENABLED", "2"), ("MAX_CONTEXT_MESSAGES", "0")]).unwrap_err(),
        "MAX_CONTEXT_MESSAGES must be greater than 0"
    );
}

#[test]
fn floats_are_passed_on_as_bits() {
    let e = env(&[("GLM_API_KEY", "k")]);
    let read = |speed, gain| AppConfig::from_env(&e, &provider(), FloatSettings { speed, gain });
    let c = read(FloatReading::Bits(1.25f32.to_bits()), FloatReading::Bits((-2.0f32).to_bits())).unwrap();
    assert_eq!(f32::from_bits(c.speech_synthesis.speed), 1.25);
    assert_eq!(f32::from_bits(c.speech_synthesis.gain), -2.0);
    assert_eq!(
        read(FloatReading::Invalid, FloatReading::Invalid).unwrap_err(),
        "invalid SPEECH_SYNTHESIS_SPEED, expected float"
    );
    assert_eq!(
        read(FloatReading::Unset, FloatReading::Invalid).unwrap_err(),
        "invalid SPEECH_SYNTHESIS_GAIN, expected float"
    );
}
