//! The settings of the whole assistant, read from environment variables.

use vstd::prelude::*;
use vstd::string::*;

use crate::config::channel::{FeishuCallbackConfig, WeixinChannelConfig};
use crate::config::env;
use crate::config::env::Env;
use crate::config::form::FormConfig;
use crate::config::learning::EnglishLearningConfig;
use crate::config::llm::{LlmConfig, LlmProvider, MediaTranslateConfig};
use crate::config::speech::SpeechSynthesisConfig;
use crate::config::tools::ExecCommandToolConfig;
use crate::number;
use crate::text;

verus! {

/// All settings.
#[derive(Debug)]
pub struct AppConfig {
    pub app_name: String,
    pub server_addr: String,
    pub default_system_prompt: String,
    pub max_iterations: usize,
    pub max_context_messages: usize,
    pub llm: LlmConfig,
    pub forms: FormConfig,
    pub media_translate: MediaTranslateConfig,
    pub speech_synthesis: SpeechSynthesisConfig,
    pub english_learning: EnglishLearningConfig,
    pub feishu_callback: FeishuCallbackConfig,
    pub weixin_channel: WeixinChannelConfig,
    pub exec_command_tool: ExecCommandToolConfig,
}

/// What was found in a variable that holds a 32-bit float.
#[derive(Debug, Clone, Copy, PartialEq, Eq, Structural)]
pub enum FloatReading {
    /// The variable is not set.
    Unset,
    /// The bits of the float.
    Bits(u32),
    /// The value is no float.
    Invalid,
}

/// The settings that are floats.
#[derive(Debug, Clone, Copy)]
pub struct FloatSettings {
    pub speed: FloatReading,
    pub gain: FloatReading,
}

/// The bits of the float one.
pub const FLOAT_ONE: u32 = 0x3f80_0000;

/// The bits of the float zero.
pub const FLOAT_ZERO: u32 = 0;

/// The bits that were read, or what stands for a missing value; nothing for an invalid one.
pub open spec fn float_or(reading: FloatReading, default: u32) -> Option<u32> {
    match reading {
        FloatReading::Unset => Some(default),
        FloatReading::Bits(bits) => Some(bits),
        FloatReading::Invalid => None,
    }
}

/// A problem, where there is one.
pub open spec fn problem_if(bad: bool, message: Seq<char>) -> Option<Seq<char>> {
    if bad {
        Some(message)
    } else {
        None
    }
}

/// The first of two problems.
pub open spec fn first_of(a: Option<Seq<char>>, b: Option<Seq<char>>) -> Option<Seq<char>> {
    if a is Some {
        a
    } else {
        b
    }
}

fn need_number(
    e: &Env,
    name: &str,
    max: u64,
    default: u64,
    message: &str,
) -> (r: Result<u64, String>)
    ensures
        match r {
            Ok(n) => env::number_or(e.get(name@), max as nat, default as nat) == Some(n as nat)
                && (n <= max || n == default),
            Err(m) => env::number_or(e.get(name@), max as nat, default as nat) is None && m@
                == message@,
        },
{
    match e.number_var(name, max, default) {
        Some(n) => Ok(n),
        None => Err(message.to_owned()),
    }
}

fn need_flag(e: &Env, name: &str, default: bool, message: &str) -> (r: Result<bool, String>)
    ensures
        match r {
            Ok(b) => env::flag_or(e.get(name@), default) == Some(b),
            Err(m) => env::flag_or(e.get(name@), default) is None && m@ == message@,
        },
{
    match e.parse_bool_env(name, default) {
        Some(b) => Ok(b),
        None => Err(message.to_owned()),
    }
}

fn need_float(reading: FloatReading, default: u32, message: &str) -> (r: Result<u32, String>)
    ensures
        match r {
            Ok(bits) => float_or(reading, default) == Some(bits),
            Err(m) => float_or(reading, default) is None && m@ == message@,
        },
{
    match reading {
        FloatReading::Unset => Ok(default),
        FloatReading::Bits(bits) => Ok(bits),
        FloatReading::Invalid => Err(message.to_owned()),
    }
}

/// A number between bounds, told by its raw value where it is invalid.
fn need_raw_number(e: &Env, name: &str, max: u64, default: u64, prefix: &str) -> (r: Result<
    u64,
    String,
>)
    ensures
        match r {
            Ok(n) => env::number_or(e.get(name@), max as nat, default as nat) == Some(n as nat)
                && (n <= max || n == default),
            Err(m) => env::number_or(e.get(name@), max as nat, default as nat) is None && m@
                == prefix@ + e.get(name@)->Some_0,
        },
{
    match e.var(name) {
        Some(raw) => match number::parse_unsigned(raw.as_str(), max) {
            Ok(n) => Ok(n),
            Err(_) => Err(text::cat(prefix, raw.as_str())),
        },
        None => Ok(default),
    }
}

/// What is wrong with the settings of the model: no key under any of the provider's names.
pub open spec fn llm_problem(e: Env, provider: LlmProvider) -> Option<Seq<char>> {
    let names = text::strings_view(provider.api_key_envs@);
    problem_if(
        env::first_filled(e.vars@, names) is None,
        "missing one of "@ + text::joined(names, ", "@),
    )
}

/// The settings of the model.
pub open spec fn llm_settings(e: Env, provider: LlmProvider, c: LlmConfig) -> bool {
    &&& c.provider@ == provider.name@
    &&& c.model@ == env::or_default(e.get("LLM_MODEL"@), provider.default_model@)
    &&& env::first_filled(e.vars@, text::strings_view(provider.api_key_envs@)) == Some(c.api_key@)
    &&& text::opt_view(c.base_url) == match env::first_filled(
        e.vars@,
        text::strings_view(provider.base_url_envs@),
    ) {
        Some(url) => Some(url),
        None => text::opt_view(provider.default_base_url),
    }
}

fn joined_names(names: &Vec<String>) -> (r: String)
    ensures
        r@ == text::joined(text::strings_view(names@), ", "@),
{
    let mut pieces: Vec<Vec<char>> = Vec::new();
    let mut i: usize = 0;
    while i < names.len()
        invariant
            i <= names@.len(),
            pieces@.len() == i,
            forall|j: int| 0 <= j < i ==> (#[trigger] pieces@[j])@ == names@[j]@,
        decreases names@.len() - i,
    {
        pieces.push(text::chars_of(names[i].as_str()));
        i = i + 1;
    }
    assert(text::pieces_view(pieces@) =~= text::strings_view(names@));
    text::string_of(&text::join(&pieces, &text::chars_of(", ")))
}

fn load_llm(e: &Env, provider: &LlmProvider) -> (r: Result<LlmConfig, String>)
    ensures
        match r {
            Ok(c) => llm_problem(*e, *provider) is None && llm_settings(*e, *provider, c),
            Err(m) => llm_problem(*e, *provider) == Some(m@),
        },
{
    let model = e.var_or("LLM_MODEL", provider.default_model.as_str());
    let base_url = match e.first_env(&provider.base_url_envs) {
        Some(url) => Some(url),
        None => text::copy_opt(&provider.default_base_url),
    };
    match e.first_env(&provider.api_key_envs) {
        Some(api_key) => Ok(
            LlmConfig { provider: provider.name.clone(), model, api_key, base_url },
        ),
        None => Err(
            text::cat("missing one of ", joined_names(&provider.api_key_envs).as_str()),
        ),
    }
}

/// The limits of the engine and the schedule of the lesson.
struct Limits {
    max_iterations: usize,
    max_context_messages: usize,
    schedule_hour: u32,
    timezone_offset_hours: i32,
}

/// The offset of the time zone in hours; nothing for an invalid value.
pub open spec fn offset_or(value: Option<Seq<char>>) -> Option<int> {
    match value {
        Some(s) => match number::signed_value(s, i32::MIN as int, i32::MAX as int) {
            Ok(n) => Some(n),
            Err(_) => None,
        },
        None => Some(8),
    }
}

/// What is wrong with the limits of the engine and the schedule of the lesson.
pub open spec fn limits_problem(e: Env) -> Option<Seq<char>> {
    let iterations = e.get("MAX_TOOL_ITERATIONS"@);
    let messages = e.get("MAX_CONTEXT_MESSAGES"@);
    let hour = e.get("ENGLISH_LEARNING_SCHEDULE_HOUR"@);
    let offset = e.get("ENGLISH_LEARNING_TZ_OFFSET_HOURS"@);
    first_of(
        problem_if(
            env::number_or(iterations, usize::MAX as nat, 12) is None,
            "invalid MAX_TOOL_ITERATIONS: "@ + iterations->Some_0,
        ),
        first_of(
            problem_if(
                env::number_or(iterations, usize::MAX as nat, 12) == Some(0nat),
                "MAX_TOOL_ITERATIONS must be greater than 0"@,
            ),
            first_of(
                problem_if(
                    env::number_or(messages, usize::MAX as nat, 20) is None,
                    "invalid MAX_CONTEXT_MESSAGES: "@ + messages->Some_0,
                ),
                first_of(
                    problem_if(
                        env::number_or(messages, usize::MAX as nat, 20) == Some(0nat),
                        "MAX_CONTEXT_MESSAGES must be greater than 0"@,
                    ),
                    schedule_problem(hour, offset),
                ),
            ),
        ),
    )
}

/// What is wrong with the schedule of the lesson.
pub open spec fn schedule_problem(
    hour: Option<Seq<char>>,
    offset: Option<Seq<char>>,
) -> Option<Seq<char>> {
    let h = env::number_or(hour, u32::MAX as nat, 9);
    let o = offset_or(offset);
    first_of(
        problem_if(h is None, "invalid ENGLISH_LEARNING_SCHEDULE_HOUR: "@ + hour->Some_0),
        first_of(
            problem_if(
                h is Some && h->Some_0 > 23,
                "ENGLISH_LEARNING_SCHEDULE_HOUR must be between 0 and 23"@,
            ),
            first_of(
                problem_if(
                    o is None,
                    "invalid ENGLISH_LEARNING_TZ_OFFSET_HOURS: "@ + offset->Some_0,
                ),
                problem_if(
                    o is Some && !(-23 <= o->Some_0 <= 23),
                    "ENGLISH_LEARNING_TZ_OFFSET_HOURS must be between -23 and 23"@,
                ),
            ),
        ),
    )
}

fn load_limits(e: &Env) -> (r: Result<Limits, String>)
    ensures
        match r {
            Ok(l) => {
                &&& limits_problem(*e) is None
                &&& env::number_or(e.get("MAX_TOOL_ITERATIONS"@), usize::MAX as nat, 12) == Some(
                    l.max_iterations as nat,
                )
                &&& env::number_or(e.get("MAX_CONTEXT_MESSAGES"@), usize::MAX as nat, 20) == Some(
                    l.max_context_messages as nat,
                )
                &&& env::number_or(e.get("ENGLISH_LEARNING_SCHEDULE_HOUR"@), u32::MAX as nat, 9)
                    == Some(l.schedule_hour as nat)
                &&& offset_or(e.get("ENGLISH_LEARNING_TZ_OFFSET_HOURS"@)) == Some(
                    l.timezone_offset_hours as int,
                )
            },
            Err(m) => limits_problem(*e) == Some(m@),
        },
{
    let iterations: u64 = match need_raw_number(
        e,
        "MAX_TOOL_ITERATIONS",
        usize::MAX as u64,
        12,
        "invalid MAX_TOOL_ITERATIONS: ",
    ) {
        Ok(n) => n,
        Err(m) => return Err(m),
    };
    if iterations == 0 {
        return Err("MAX_TOOL_ITERATIONS must be greater than 0".to_owned());
    }
    let messages: u64 = match need_raw_number(
        e,
        "MAX_CONTEXT_MESSAGES",
        usize::MAX as u64,
        20,
        "invalid MAX_CONTEXT_MESSAGES: ",
    ) {
        Ok(n) => n,
        Err(m) => return Err(m),
    };
    if messages == 0 {
        return Err("MAX_CONTEXT_MESSAGES must be greater than 0".to_owned());
    }
    let hour: u64 = match need_raw_number(
        e,
        "ENGLISH_LEARNING_SCHEDULE_HOUR",
        u32::MAX as u64,
        9,
        "invalid ENGLISH_LEARNING_SCHEDULE_HOUR: ",
    ) {
        Ok(n) => n,
        Err(m) => return Err(m),
    };
    if hour > 23 {
        return Err("ENGLISH_LEARNING_SCHEDULE_HOUR must be between 0 and 23".to_owned());
    }
    let offset: i32 = match e.var("ENGLISH_LEARNING_TZ_OFFSET_HOURS") {
        Some(raw) => match number::parse_i32(raw.as_str()) {
            Ok(n) => n,
            Err(_) => return Err(
                text::cat("invalid ENGLISH_LEARNING_TZ_OFFSET_HOURS: ", raw.as_str()),
            ),
        },
        None => 8,
    };
    if offset < -23 || offset > 23 {
        return Err("ENGLISH_LEARNING_TZ_OFFSET_HOURS must be between -23 and 23".to_owned());
    }
    Ok(
        Limits {
            max_iterations: iterations as usize,
            max_context_messages: messages as usize,
            schedule_hour: hour as u32,
            timezone_offset_hours: offset,
        },
    )
}

/// The settings of media translation.
pub open spec fn media_settings(e: Env, c: MediaTranslateConfig) -> bool {
    &&& text::opt_view(c.api_key) == env::first_filled(
        e.vars@,
        seq![
            "MEDIA_TRANSLATE_API_KEY"@,
            "DASHSCOPE_API_KEY"@,
            "BAILIAN_API_KEY"@,
            "GLM_API_KEY"@,
        ],
    )
    &&& c.base_url@ == env::or_default(
        env::first_filled(
            e.vars@,
            seq![
                "MEDIA_TRANSLATE_BASE_URL"@,
                "DASHSCOPE_BASE_URL"@,
                "BAILIAN_BASE_URL"@,
                "GLM_BASE_URL"@,
            ],
        ),
        "https://dashscope.aliyuncs.com/compatible-mode/v1"@,
    )
    &&& c.model@ == env::or_default(
        e.get("MEDIA_TRANSLATE_MODEL"@),
        "qwen3-livetranslate-flash"@,
    )
}

fn load_media(e: &Env) -> (r: MediaTranslateConfig)
    ensures
        media_settings(*e, r),
{
    MediaTranslateConfig {
        api_key: e.first_of_four(
            "MEDIA_TRANSLATE_API_KEY",
            "DASHSCOPE_API_KEY",
            "BAILIAN_API_KEY",
            "GLM_API_KEY",
        ),
        base_url: match e.first_of_four(
            "MEDIA_TRANSLATE_BASE_URL",
            "DASHSCOPE_BASE_URL",
            "BAILIAN_BASE_URL",
            "GLM_BASE_URL",
        ) {
            Some(url) => url,
            None => "https://dashscope.aliyuncs.com/compatible-mode/v1".to_owned(),
        },
        model: e.var_or("MEDIA_TRANSLATE_MODEL", "qwen3-livetranslate-flash"),
    }
}

/// The sample rate that is asked for, if any.
pub open spec fn rate_of(value: Option<Seq<char>>) -> Option<Option<nat>> {
    match value {
        Some(s) => match number::unsigned_value(s, u32::MAX as nat) {
            Ok(n) => Some(Some(n)),
            Err(_) => None,
        },
        None => Some(None),
    }
}

/// What is wrong with the settings of the speech synthesis.
pub open spec fn speech_problem(e: Env, f: FloatSettings) -> Option<Seq<char>> {
    let rate = e.get("SPEECH_SYNTHESIS_SAMPLE_RATE"@);
    first_of(
        problem_if(
            rate_of(rate) is None,
            "invalid SPEECH_SYNTHESIS_SAMPLE_RATE: "@ + rate->Some_0,
        ),
        first_of(
            problem_if(
                float_or(f.speed, FLOAT_ONE) is None,
                "invalid SPEECH_SYNTHESIS_SPEED, expected float"@,
            ),
            first_of(
                problem_if(
                    float_or(f.gain, FLOAT_ZERO) is None,
                    "invalid SPEECH_SYNTHESIS_GAIN, expected float"@,
                ),
                problem_if(
                    env::flag_or(e.get("SPEECH_SYNTHESIS_STREAM"@), false) is None,
                    "invalid SPEECH_SYNTHESIS_STREAM, expected true/false"@,
                ),
            ),
        ),
    )
}

/// The settings of the speech synthesis.
pub open spec fn speech_settings(e: Env, f: FloatSettings, c: SpeechSynthesisConfig) -> bool {
    &&& text::opt_view(c.api_key) == env::first_filled(
        e.vars@,
        seq!["SPEECH_SYNTHESIS_API_KEY"@, "SILICONFLOW_API_KEY"@],
    )
    &&& c.base_url@ == env::or_default(
        env::first_filled(
            e.vars@,
            seq!["SPEECH_SYNTHESIS_BASE_URL"@, "SILICONFLOW_BASE_URL"@],
        ),
        "https://api.siliconflow.cn/v1"@,
    )
    &&& c.model@ == env::or_default(e.get("SPEECH_SYNTHESIS_MODEL"@), "MOSS-TTSD-v0.5"@)
    &&& text::opt_view(c.voice) == Some(
        env::or_default(env::filled(e.get("SPEECH_SYNTHESIS_VOICE"@)), "alex"@),
    )
    &&& c.response_format@ == env::or_default(e.get("SPEECH_SYNTHESIS_RESPONSE_FORMAT"@), "mp3"@)
    &&& rate_of(e.get("SPEECH_SYNTHESIS_SAMPLE_RATE"@)) == Some(
        match c.sample_rate {
            Some(n) => Some(n as nat),
            None => None,
        },
    )
    &&& float_or(f.speed, FLOAT_ONE) == Some(c.speed)
    &&& float_or(f.gain, FLOAT_ZERO) == Some(c.gain)
    &&& env::flag_or(e.get("SPEECH_SYNTHESIS_STREAM"@), false) == Some(c.stream)
}

fn load_speech(e: &Env, f: FloatSettings) -> (r: Result<SpeechSynthesisConfig, String>)
    ensures
        match r {
            Ok(c) => speech_problem(*e, f) is None && speech_settings(*e, f, c),
            Err(m) => speech_problem(*e, f) == Some(m@),
        },
{
    let sample_rate: Option<u32> = match e.var("SPEECH_SYNTHESIS_SAMPLE_RATE") {
        Some(raw) => match number::parse_unsigned(raw.as_str(), u32::MAX as u64) {
            Ok(n) => Some(n as u32),
            Err(_) => return Err(
                text::cat("invalid SPEECH_SYNTHESIS_SAMPLE_RATE: ", raw.as_str()),
            ),
        },
        None => None,
    };
    let speed: u32 = match need_float(
        f.speed,
        FLOAT_ONE,
        "invalid SPEECH_SYNTHESIS_SPEED, expected float",
    ) {
        Ok(bits) => bits,
        Err(m) => return Err(m),
    };
    let gain: u32 = match need_float(
        f.gain,
        FLOAT_ZERO,
        "invalid SPEECH_SYNTHESIS_GAIN, expected float",
    ) {
        Ok(bits) => bits,
        Err(m) => return Err(m),
    };
    let stream = match need_flag(
        e,
        "SPEECH_SYNTHESIS_STREAM",
        false,
        "invalid SPEECH_SYNTHESIS_STREAM, expected true/false",
    ) {
        Ok(b) => b,
        Err(m) => return Err(m),
    };
    let voice = match e.filled_var("SPEECH_SYNTHESIS_VOICE") {
        Some(v) => Some(v),
        None => Some("alex".to_owned()),
    };
    Ok(
        SpeechSynthesisConfig {
            api_key: e.first_of_two("SPEECH_SYNTHESIS_API_KEY", "SILICONFLOW_API_KEY"),
            base_url: match e.first_of_two("SPEECH_SYNTHESIS_BASE_URL", "SILICONFLOW_BASE_URL") {
                Some(url) => url,
                None => "https://api.siliconflow.cn/v1".to_owned(),
            },
            model: e.var_or("SPEECH_SYNTHESIS_MODEL", "MOSS-TTSD-v0.5"),
            voice,
            response_format: e.var_or("SPEECH_SYNTHESIS_RESPONSE_FORMAT", "mp3"),
            sample_rate,
            speed,
            gain,
            stream,
        },
    )
}

/// What is wrong with the settings of the lesson.
pub open spec fn learning_problem(e: Env) -> Option<Seq<char>> {
    first_of(
        problem_if(
            env::flag_or(e.get("ENGLISH_LEARNING_ENABLED"@), true) is None,
            "invalid ENGLISH_LEARNING_ENABLED, expected true/false"@,
        ),
        first_of(
            problem_if(
                env::flag_or(e.get("ENGLISH_LEARNING_SCHEDULER_ENABLED"@), true) is None,
                "invalid ENGLISH_LEARNING_SCHEDULER_ENABLED, expected true/false"@,
            ),
            problem_if(
                env::number_or(
                    e.get("ENGLISH_LEARNING_MAX_FEED_ITEMS_PER_SOURCE"@),
                    usize::MAX as nat,
                    5,
                ) is None,
                "invalid ENGLISH_LEARNING_MAX_FEED_ITEMS_PER_SOURCE, expected integer"@,
            ),
        ),
    )
}

/// The settings of the lesson.
pub open spec fn learning_settings(e: Env, c: EnglishLearningConfig) -> bool {
    let sources = env::entries_of(e.get("ENGLISH_LEARNING_NEWS_SOURCES"@));
    &&& env::flag_or(e.get("ENGLISH_LEARNING_ENABLED"@), true) == Some(c.enabled)
    &&& env::flag_or(e.get("ENGLISH_LEARNING_SCHEDULER_ENABLED"@), true) == Some(
        c.scheduler_enabled,
    )
    &&& env::number_or(e.get("ENGLISH_LEARNING_SCHEDULE_HOUR"@), u32::MAX as nat, 9) == Some(
        c.schedule_hour as nat,
    )
    &&& offset_or(e.get("ENGLISH_LEARNING_TZ_OFFSET_HOURS"@)) == Some(
        c.timezone_offset_hours as int,
    )
    &&& c.storage_dir@ == env::or_default(
        e.get("ENGLISH_LEARNING_STORAGE_DIR"@),
        "./learning_data"@,
    )
    &&& text::strings_view(c.news_sources@) == if sources.len() == 0 {
        seq!["https://feeds.bbci.co.uk/news/world/rss.xml"@]
    } else {
        sources
    }
    &&& env::number_or(
        e.get("ENGLISH_LEARNING_MAX_FEED_ITEMS_PER_SOURCE"@),
        usize::MAX as nat,
        5,
    ) == Some(c.max_feed_items_per_source as nat)
}

fn load_learning(e: &Env, schedule_hour: u32, timezone_offset_hours: i32) -> (r: Result<
    EnglishLearningConfig,
    String,
>)
    requires
        env::number_or(e.get("ENGLISH_LEARNING_SCHEDULE_HOUR"@), u32::MAX as nat, 9) == Some(
            schedule_hour as nat,
        ),
        offset_or(e.get("ENGLISH_LEARNING_TZ_OFFSET_HOURS"@)) == Some(
            timezone_offset_hours as int,
        ),
    ensures
        match r {
            Ok(c) => learning_problem(*e) is None && learning_settings(*e, c),
            Err(m) => learning_problem(*e) == Some(m@),
        },
{
    let enabled = match need_flag(
        e,
        "ENGLISH_LEARNING_ENABLED",
        true,
        "invalid ENGLISH_LEARNING_ENABLED, expected true/false",
    ) {
        Ok(b) => b,
        Err(m) => return Err(m),
    };
    let scheduler_enabled = match need_flag(
        e,
        "ENGLISH_LEARNING_SCHEDULER_ENABLED",
        true,
        "invalid ENGLISH_LEARNING_SCHEDULER_ENABLED, expected true/false",
    ) {
        Ok(b) => b,
        Err(m) => return Err(m),
    };
    let configured = e.parse_csv_env("ENGLISH_LEARNING_NEWS_SOURCES");
    let news_sources = if configured.len() == 0 {
        let only = vec!["https://feeds.bbci.co.uk/news/world/rss.xml".to_owned()];
        assert(text::strings_view(configured@).len() == 0);
        assert(text::strings_view(only@) =~= seq!["https://feeds.bbci.co.uk/news/world/rss.xml"@]);
        only
    } else {
        assert(text::strings_view(configured@).len() > 0);
        configured
    };
    let items: u64 = match need_number(
        e,
        "ENGLISH_LEARNING_MAX_FEED_ITEMS_PER_SOURCE",
        usize::MAX as u64,
        5,
        "invalid ENGLISH_LEARNING_MAX_FEED_ITEMS_PER_SOURCE, expected integer",
    ) {
        Ok(n) => n,
        Err(m) => return Err(m),
    };
    Ok(
        EnglishLearningConfig {
            enabled,
            scheduler_enabled,
            schedule_hour,
            timezone_offset_hours,
            storage_dir: e.var_or("ENGLISH_LEARNING_STORAGE_DIR", "./learning_data"),
            news_sources,
            max_feed_items_per_source: items as usize,
        },
    )
}

/// What is wrong with the settings of the Feishu callback.
pub open spec fn feishu_problem(e: Env) -> Option<Seq<char>> {
    problem_if(
        env::flag_or(e.get("FEISHU_BOT_REQUIRE_MENTION"@), true) is None,
        "invalid FEISHU_BOT_REQUIRE_MENTION, expected true/false"@,
    )
}

/// The settings of the Feishu callback.
pub open spec fn feishu_settings(e: Env, c: FeishuCallbackConfig) -> bool {
    &&& text::opt_view(c.verification_token) == env::first_filled(
        e.vars@,
        seq!["FEISHU_CALLBACK_VERIFICATION_TOKEN"@, "FEISHU_VERIFICATION_TOKEN"@],
    )
    &&& text::opt_view(c.encrypt_key) == env::first_filled(
        e.vars@,
        seq!["FEISHU_CALLBACK_ENCRYPT_KEY"@, "FEISHU_ENCRYPT_KEY"@],
    )
    &&& text::opt_view(c.app_id) == env::first_filled(e.vars@, seq!["FEISHU_APP_ID"@, "APP_ID"@])
    &&& text::opt_view(c.app_secret) == env::first_filled(
        e.vars@,
        seq!["FEISHU_APP_SECRET"@, "APP_SECRET"@],
    )
    &&& c.open_base_url@ == env::or_default(
        e.get("FEISHU_OPEN_BASE_URL"@),
        "https://open.feishu.cn"@,
    )
    &&& env::flag_or(e.get("FEISHU_BOT_REQUIRE_MENTION"@), true) == Some(c.require_mention)
    &&& text::opt_view(c.audio_source_lang) == env::filled(e.get("FEISHU_AUDIO_SOURCE_LANG"@))
    &&& c.audio_target_lang@ == env::or_default(e.get("FEISHU_AUDIO_TARGET_LANG"@), "zh"@)
}

fn load_feishu(e: &Env) -> (r: Result<FeishuCallbackConfig, String>)
    ensures
        match r {
            Ok(c) => feishu_problem(*e) is None && feishu_settings(*e, c),
            Err(m) => feishu_problem(*e) == Some(m@),
        },
{
    let require_mention = match need_flag(
        e,
        "FEISHU_BOT_REQUIRE_MENTION",
        true,
        "invalid FEISHU_BOT_REQUIRE_MENTION, expected true/false",
    ) {
        Ok(b) => b,
        Err(m) => return Err(m),
    };
    Ok(
        FeishuCallbackConfig {
            verification_token: e.first_of_two(
                "FEISHU_CALLBACK_VERIFICATION_TOKEN",
                "FEISHU_VERIFICATION_TOKEN",
            ),
            encrypt_key: e.first_of_two("FEISHU_CALLBACK_ENCRYPT_KEY", "FEISHU_ENCRYPT_KEY"),
            app_id: e.first_of_two("FEISHU_APP_ID", "APP_ID"),
            app_secret: e.first_of_two("FEISHU_APP_SECRET", "APP_SECRET"),
            open_base_url: e.var_or("FEISHU_OPEN_BASE_URL", "https://open.feishu.cn"),
            require_mention,
            audio_source_lang: e.filled_var("FEISHU_AUDIO_SOURCE_LANG"),
            audio_target_lang: e.var_or("FEISHU_AUDIO_TARGET_LANG", "zh"),
        },
    )
}

/// What is wrong with the settings of the Weixin channel.
pub open spec fn weixin_problem(e: Env) -> Option<Seq<char>> {
    first_of(
        problem_if(
            env::flag_or(e.get("WEIXIN_ENABLED"@), false) is None,
            "invalid WEIXIN_ENABLED, expected true/false"@,
        ),
        weixin_number_problem(e),
    )
}

/// What is wrong with the times of the Weixin channel.
pub open spec fn weixin_number_problem(e: Env) -> Option<Seq<char>> {
    first_of(
        problem_if(
            env::number_or(e.get("WEIXIN_LOGIN_TIMEOUT_MS"@), u64::MAX as nat, 480_000) is None,
            "invalid WEIXIN_LOGIN_TIMEOUT_MS, expected integer"@,
        ),
        first_of(
            problem_if(
                env::number_or(e.get("WEIXIN_LONG_POLL_TIMEOUT_MS"@), u64::MAX as nat, 35_000) is None,
                "invalid WEIXIN_LONG_POLL_TIMEOUT_MS, expected integer"@,
            ),
            first_of(
                problem_if(
                    env::number_or(e.get("WEIXIN_RETRY_DELAY_MS"@), u64::MAX as nat, 2_000) is None,
                    "invalid WEIXIN_RETRY_DELAY_MS, expected integer"@,
                ),
                first_of(
                    problem_if(
                        env::number_or(e.get("WEIXIN_BACKOFF_DELAY_MS"@), u64::MAX as nat, 30_000) is None,
                        "invalid WEIXIN_BACKOFF_DELAY_MS, expected integer"@,
                    ),
                    first_of(
                        problem_if(
                            env::number_or(e.get("WEIXIN_SESSION_PAUSE_MINUTES"@), u64::MAX as nat, 60) is None,
                            "invalid WEIXIN_SESSION_PAUSE_MINUTES, expected integer"@,
                        ),
                        first_of(
                            problem_if(
                                env::number_or(e.get("WEIXIN_SUPERVISOR_INTERVAL_MS"@), u64::MAX as nat, 30_000) is None,
                                "invalid WEIXIN_SUPERVISOR_INTERVAL_MS, expected integer"@,
                            ),
                            first_of(
                                problem_if(
                                    env::number_or(e.get("WEIXIN_SUPERVISOR_STALE_AFTER_MS"@), u64::MAX as nat, 0) is None,
                                    "invalid WEIXIN_SUPERVISOR_STALE_AFTER_MS, expected integer"@,
                                ),
                                problem_if(
                                    env::number_or(e.get("WEIXIN_SUPERVISOR_RESTART_GAP_MS"@), u64::MAX as nat, 0) is None,
                                    "invalid WEIXIN_SUPERVISOR_RESTART_GAP_MS, expected integer"@,
                                ),
                            ),
                        ),
                    ),
                ),
            ),
        ),
    )
}

/// The settings of the Weixin channel.
pub open spec fn weixin_settings(e: Env, c: WeixinChannelConfig) -> bool {
    &&& env::flag_or(e.get("WEIXIN_ENABLED"@), false) == Some(c.enabled)
    &&& c.base_url@ == env::or_default(
        e.get("WEIXIN_API_BASE_URL"@),
        "https://ilinkai.weixin.qq.com"@,
    )
    &&& c.cdn_base_url@ == env::or_default(
        e.get("WEIXIN_CDN_BASE_URL"@),
        "https://novac2c.cdn.weixin.qq.com/c2c"@,
    )
    &&& c.state_dir@ == env::or_default(e.get("WEIXIN_STATE_DIR"@), "./channel_state/weixin"@)
    &&& text::opt_view(c.route_tag) == env::filled(e.get("WEIXIN_ROUTE_TAG"@))
    &&& c.ilink_app_id@ == env::or_default(e.get("WEIXIN_ILINK_APP_ID"@), "bot"@)
    &&& c.bot_type@ == env::or_default(e.get("WEIXIN_BOT_TYPE"@), "3"@)
    &&& env::number_or(e.get("WEIXIN_LOGIN_TIMEOUT_MS"@), u64::MAX as nat, 480_000) == Some(c.login_timeout_ms as nat)
    &&& env::number_or(e.get("WEIXIN_LONG_POLL_TIMEOUT_MS"@), u64::MAX as nat, 35_000) == Some(c.long_poll_timeout_ms as nat)
    &&& env::number_or(e.get("WEIXIN_RETRY_DELAY_MS"@), u64::MAX as nat, 2_000) == Some(c.retry_delay_ms as nat)
    &&& env::number_or(e.get("WEIXIN_BACKOFF_DELAY_MS"@), u64::MAX as nat, 30_000) == Some(c.backoff_delay_ms as nat)
    &&& env::number_or(e.get("WEIXIN_SESSION_PAUSE_MINUTES"@), u64::MAX as nat, 60) == Some(c.session_pause_minutes as nat)
    &&& env::number_or(e.get("WEIXIN_SUPERVISOR_INTERVAL_MS"@), u64::MAX as nat, 30_000) == Some(c.supervisor_interval_ms as nat)
    &&& env::number_or(e.get("WEIXIN_SUPERVISOR_STALE_AFTER_MS"@), u64::MAX as nat, 0) == Some(c.supervisor_stale_after_ms as nat)
    &&& env::number_or(e.get("WEIXIN_SUPERVISOR_RESTART_GAP_MS"@), u64::MAX as nat, 0) == Some(c.supervisor_restart_gap_ms as nat)
}

fn load_weixin(e: &Env) -> (r: Result<WeixinChannelConfig, String>)
    ensures
        match r {
            Ok(c) => weixin_problem(*e) is None && weixin_settings(*e, c),
            Err(m) => weixin_problem(*e) == Some(m@),
        },
{
    let enabled = match need_flag(
        e,
        "WEIXIN_ENABLED",
        false,
        "invalid WEIXIN_ENABLED, expected true/false",
    ) {
        Ok(b) => b,
        Err(m) => return Err(m),
    };
    let login_timeout_ms: u64 = match need_number(
        e,
        "WEIXIN_LOGIN_TIMEOUT_MS",
        u64::MAX,
        480_000,
        "invalid WEIXIN_LOGIN_TIMEOUT_MS, expected integer",
    ) {
        Ok(n) => n,
        Err(m) => return Err(m),
    };
    let long_poll_timeout_ms: u64 = match need_number(
        e,
        "WEIXIN_LONG_POLL_TIMEOUT_MS",
        u64::MAX,
        35_000,
        "invalid WEIXIN_LONG_POLL_TIMEOUT_MS, expected integer",
    ) {
        Ok(n) => n,
        Err(m) => return Err(m),
    };
    let retry_delay_ms: u64 = match need_number(
        e,
        "WEIXIN_RETRY_DELAY_MS",
        u64::MAX,
        2_000,
        "invalid WEIXIN_RETRY_DELAY_MS, expected integer",
    ) {
        Ok(n) => n,
        Err(m) => return Err(m),
    };
    let backoff_delay_ms: u64 = match need_number(
        e,
        "WEIXIN_BACKOFF_DELAY_MS",
        u64::MAX,
        30_000,
        "invalid WEIXIN_BACKOFF_DELAY_MS, expected integer",
    ) {
        Ok(n) => n,
        Err(m) => return Err(m),
    };
    let session_pause_minutes: u64 = match need_number(
        e,
        "WEIXIN_SESSION_PAUSE_MINUTES",
        u64::MAX,
        60,
        "invalid WEIXIN_SESSION_PAUSE_MINUTES, expected integer",
    ) {
        Ok(n) => n,
        Err(m) => return Err(m),
    };
    let supervisor_interval_ms: u64 = match need_number(
        e,
        "WEIXIN_SUPERVISOR_INTERVAL_MS",
        u64::MAX,
        30_000,
        "invalid WEIXIN_SUPERVISOR_INTERVAL_MS, expected integer",
    ) {
        Ok(n) => n,
        Err(m) => return Err(m),
    };
    let supervisor_stale_after_ms: u64 = match need_number(
        e,
        "WEIXIN_SUPERVISOR_STALE_AFTER_MS",
        u64::MAX,
        0,
        "invalid WEIXIN_SUPERVISOR_STALE_AFTER_MS, expected integer",
    ) {
        Ok(n) => n,
        Err(m) => return Err(m),
    };
    let supervisor_restart_gap_ms: u64 = match need_number(
        e,
        "WEIXIN_SUPERVISOR_RESTART_GAP_MS",
        u64::MAX,
        0,
        "invalid WEIXIN_SUPERVISOR_RESTART_GAP_MS, expected integer",
    ) {
        Ok(n) => n,
        Err(m) => return Err(m),
    };
    Ok(
        WeixinChannelConfig {
            enabled,
            base_url: e.var_or("WEIXIN_API_BASE_URL", "https://ilinkai.weixin.qq.com"),
            cdn_base_url: e.var_or("WEIXIN_CDN_BASE_URL", "https://novac2c.cdn.weixin.qq.com/c2c"),
            state_dir: e.var_or("WEIXIN_STATE_DIR", "./channel_state/weixin"),
            route_tag: e.filled_var("WEIXIN_ROUTE_TAG"),
            ilink_app_id: e.var_or("WEIXIN_ILINK_APP_ID", "bot"),
            bot_type: e.var_or("WEIXIN_BOT_TYPE", "3"),
            login_timeout_ms,
            long_poll_timeout_ms,
            retry_delay_ms,
            backoff_delay_ms,
            session_pause_minutes,
            supervisor_interval_ms,
            supervisor_stale_after_ms,
            supervisor_restart_gap_ms,
        },
    )
}

/// What is wrong with the settings of the shell tool.
pub open spec fn exec_problem(e: Env) -> Option<Seq<char>> {
    first_of(
        problem_if(
            env::flag_or(e.get("EXEC_COMMAND_TOOL_ENABLED"@), false) is None,
            "invalid EXEC_COMMAND_TOOL_ENABLED, expected true/false"@,
        ),
        first_of(
            problem_if(
                env::number_or(e.get("EXEC_COMMAND_TOOL_TIMEOUT_SECS"@), u64::MAX as nat, 20) is None,
                "invalid EXEC_COMMAND_TOOL_TIMEOUT_SECS, expected integer"@,
            ),
            problem_if(
                env::number_or(
                    e.get("EXEC_COMMAND_TOOL_MAX_OUTPUT_CHARS"@),
                    usize::MAX as nat,
                    4000,
                ) is None,
                "invalid EXEC_COMMAND_TOOL_MAX_OUTPUT_CHARS, expected integer"@,
            ),
        ),
    )
}

/// The settings of the shell tool.
pub open spec fn exec_settings(e: Env, c: ExecCommandToolConfig) -> bool {
    &&& env::flag_or(e.get("EXEC_COMMAND_TOOL_ENABLED"@), false) == Some(c.enabled)
    &&& c.shell@ == env::or_default(e.get("EXEC_COMMAND_TOOL_SHELL"@), "/bin/sh"@)
    &&& env::number_or(e.get("EXEC_COMMAND_TOOL_TIMEOUT_SECS"@), u64::MAX as nat, 20) == Some(
        c.timeout_secs as nat,
    )
    &&& env::number_or(e.get("EXEC_COMMAND_TOOL_MAX_OUTPUT_CHARS"@), usize::MAX as nat, 4000)
        == Some(c.max_output_chars as nat)
}

fn load_exec(e: &Env) -> (r: Result<ExecCommandToolConfig, String>)
    ensures
        match r {
            Ok(c) => exec_problem(*e) is None && exec_settings(*e, c),
            Err(m) => exec_problem(*e) == Some(m@),
        },
{
    let enabled = match need_flag(
        e,
        "EXEC_COMMAND_TOOL_ENABLED",
        false,
        "invalid EXEC_COMMAND_TOOL_ENABLED, expected true/false",
    ) {
        Ok(b) => b,
        Err(m) => return Err(m),
    };
    let timeout_secs: u64 = match need_number(
        e,
        "EXEC_COMMAND_TOOL_TIMEOUT_SECS",
        u64::MAX,
        20,
        "invalid EXEC_COMMAND_TOOL_TIMEOUT_SECS, expected integer",
    ) {
        Ok(n) => n,
        Err(m) => return Err(m),
    };
    let chars: u64 = match need_number(
        e,
        "EXEC_COMMAND_TOOL_MAX_OUTPUT_CHARS",
        usize::MAX as u64,
        4000,
        "invalid EXEC_COMMAND_TOOL_MAX_OUTPUT_CHARS, expected integer",
    ) {
        Ok(n) => n,
        Err(m) => return Err(m),
    };
    Ok(
        ExecCommandToolConfig {
            enabled,
            shell: e.var_or("EXEC_COMMAND_TOOL_SHELL", "/bin/sh"),
            timeout_secs,
            max_output_chars: chars as usize,
        },
    )
}

/// The first thing that is wrong with the variables.
pub open spec fn config_problem(
    e: Env,
    provider: LlmProvider,
    f: FloatSettings,
) -> Option<Seq<char>> {
    first_of(
        llm_problem(e, provider),
        first_of(
            limits_problem(e),
            first_of(
                speech_problem(e, f),
                first_of(
                    learning_problem(e),
                    first_of(feishu_problem(e), first_of(weixin_problem(e), exec_problem(e))),
                ),
            ),
        ),
    )
}

/// The settings that the variables stand for.
pub open spec fn config_settings(
    e: Env,
    provider: LlmProvider,
    f: FloatSettings,
    c: AppConfig,
) -> bool {
    &&& c.app_name@ == env::or_default(e.get("APP_NAME"@), "mimic-shrimp-rs"@)
    &&& c.server_addr@ == env::or_default(e.get("SERVER_ADDR"@), "127.0.0.1:7878"@)
    &&& c.default_system_prompt@ == env::or_default(
        e.get("SYSTEM_PROMPT"@),
        "You are a tool-calling assistant inspired by OpenClaw. When deterministic work or external state is needed, call the available tools first, then synthesize a concise final answer."@,
    )
    &&& env::number_or(e.get("MAX_TOOL_ITERATIONS"@), usize::MAX as nat, 12) == Some(
        c.max_iterations as nat,
    )
    &&& env::number_or(e.get("MAX_CONTEXT_MESSAGES"@), usize::MAX as nat, 20) == Some(
        c.max_context_messages as nat,
    )
    &&& llm_settings(e, provider, c.llm)
    &&& c.forms.markdown_dir@ == env::or_default(e.get("FORM_MARKDOWN_DIR"@), "./forms"@)
    &&& media_settings(e, c.media_translate)
    &&& speech_settings(e, f, c.speech_synthesis)
    &&& learning_settings(e, c.english_learning)
    &&& feishu_settings(e, c.feishu_callback)
    &&& weixin_settings(e, c.weixin_channel)
    &&& exec_settings(e, c.exec_command_tool)
}

impl AppConfig {
    /// Reads all settings. The first problem that is found is told; the provider is known already,
    /// and floats were read before.
    pub fn from_env(e: &Env, provider: &LlmProvider, f: FloatSettings) -> (r: Result<Self, String>)
        ensures
            match r {
                Ok(c) => config_problem(*e, *provider, f) is None && config_settings(
                    *e,
                    *provider,
                    f,
                    c,
                ),
                Err(m) => config_problem(*e, *provider, f) == Some(m@),
            },
    {
        let llm = match load_llm(e, provider) {
            Ok(c) => c,
            Err(m) => return Err(m),
        };
        let limits = match load_limits(e) {
            Ok(l) => l,
            Err(m) => return Err(m),
        };
        let speech_synthesis = match load_speech(e, f) {
            Ok(c) => c,
            Err(m) => return Err(m),
        };
        let english_learning = match load_learning(
            e,
            limits.schedule_hour,
            limits.timezone_offset_hours,
        ) {
            Ok(c) => c,
            Err(m) => return Err(m),
        };
        let feishu_callback = match load_feishu(e) {
            Ok(c) => c,
            Err(m) => return Err(m),
        };
        let weixin_channel = match load_weixin(e) {
            Ok(c) => c,
            Err(m) => return Err(m),
        };
        let exec_command_tool = match load_exec(e) {
            Ok(c) => c,
            Err(m) => return Err(m),
        };
        Ok(
            AppConfig {
                app_name: e.var_or("APP_NAME", "mimic-shrimp-rs"),
                server_addr: e.var_or("SERVER_ADDR", "127.0.0.1:7878"),
                default_system_prompt: e.var_or(
                    "SYSTEM_PROMPT",
                    "You are a tool-calling assistant inspired by OpenClaw. When deterministic work or external state is needed, call the available tools first, then synthesize a concise final answer.",
                ),
                max_iterations: limits.max_iterations,
                max_context_messages: limits.max_context_messages,
                llm,
                forms: FormConfig { markdown_dir: e.var_or("FORM_MARKDOWN_DIR", "./forms") },
                media_translate: load_media(e),
                speech_synthesis,
                english_learning,
                feishu_callback,
                weixin_channel,
                exec_command_tool,
            },
        )
    }
}

/// Settings that were accepted keep within their bounds: the engine may work and remember, and the
/// lesson has an hour of the day and an offset of less than a day.
pub proof fn law_settings_are_sane(e: Env, provider: LlmProvider, f: FloatSettings, c: AppConfig)
    requires
        config_problem(e, provider, f) is None,
        config_settings(e, provider, f, c),
    ensures
        c.max_iterations > 0,
        c.max_context_messages > 0,
        c.english_learning.schedule_hour <= 23,
        -23 <= c.english_learning.timezone_offset_hours <= 23,
        c.english_learning.news_sources@.len() > 0,
{
    let sources = env::entries_of(e.get("ENGLISH_LEARNING_NEWS_SOURCES"@));
    assert(text::strings_view(c.english_learning.news_sources@).len()
        == c.english_learning.news_sources@.len());
}

} // verus!
