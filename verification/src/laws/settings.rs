//! What holds of the settings and the variables that they are read from.

use vstd::prelude::*;
use vstd::string::*;

use crate::config::app::{AppConfig, FloatReading, FloatSettings};
use crate::config::env;
use crate::config::env::Env;
use crate::config::llm::LlmProvider;
use crate::number;
use crate::text;

verus! {

/// A variable holds what its first entry holds; one without an entry is missing.
pub proof fn law_first_entry_counts(e: &Env, name: &str, r: Option<String>, k: int)
    requires
        call_ensures(Env::var, (e, name), r),
    ensures
        0 <= k < e.vars@.len() && e.vars@[k].name@ == name@ && (forall|i: int|
            0 <= i < k ==> (#[trigger] e.vars@[i]).name@ != name@) ==> (r matches Some(v) && v@
            == e.vars@[k].value@),
        (forall|i: int| 0 <= i < e.vars@.len() ==> (#[trigger] e.vars@[i]).name@ != name@) ==> r
            is None,
        text::opt_view(r) == e.get(name@),
{
    lemma_first_entry(e.vars@, name@, k);
}

proof fn lemma_first_entry(vars: Seq<env::EnvVar>, name: Seq<char>, k: int)
    ensures
        0 <= k < vars.len() && vars[k].name@ == name && (forall|i: int|
            0 <= i < k ==> (#[trigger] vars[i]).name@ != name) ==> env::value_of(vars, name) == Some(
            vars[k].value@,
        ),
        (forall|i: int| 0 <= i < vars.len() ==> (#[trigger] vars[i]).name@ != name)
            ==> env::value_of(vars, name) is None,
    decreases vars.len(),
{
    if vars.len() > 0 {
        let rest = vars.skip(1);
        lemma_first_entry(rest, name, k - 1);
        assert forall|i: int| 0 <= i < rest.len() implies rest[i] == vars[i + 1] by {}
        if vars[0].name@ != name {
            if forall|i: int| 0 <= i < vars.len() ==> (#[trigger] vars[i]).name@ != name {
                assert forall|i: int| 0 <= i < rest.len() implies (#[trigger] rest[i]).name@
                    != name by {
                    assert(vars[i + 1].name@ != name);
                }
            }
            if 0 <= k < vars.len() && vars[k].name@ == name && (forall|i: int|
                0 <= i < k ==> (#[trigger] vars[i]).name@ != name) {
                assert forall|i: int| 0 <= i < k - 1 implies (#[trigger] rest[i]).name@ != name by {
                    assert(vars[i + 1].name@ != name);
                }
            }
        } else {
            assert(vars[0].name@ == name);
        }
    }
}

/// Whether a text is that of a variable, or stands for a missing one.
pub open spec fn reads(e: Env, name: Seq<char>, default: Seq<char>, value: Seq<char>) -> bool {
    &&& e.get(name) matches Some(s) ==> value == s
    &&& e.get(name) is None ==> value == default
}

/// Whether a variable holds more than white space.
pub open spec fn says(e: Env, name: Seq<char>) -> bool {
    e.get(name) matches Some(s) && !text::is_blank(s)
}

/// Whether an option holds a variable, trimmed, and nothing where the variable is blank or missing.
pub open spec fn reads_trimmed(e: Env, name: Seq<char>, value: Option<String>) -> bool {
    &&& says(e, name) ==> (value matches Some(v) && v@ == text::trimmed(e.get(name)->Some_0))
    &&& !says(e, name) ==> value is None
}

/// Whether a number is that of a variable, or stands for a missing one.
pub open spec fn counts(e: Env, name: Seq<char>, max: nat, default: nat, value: nat) -> bool {
    &&& e.get(name) matches Some(s) ==> number::unsigned_value(s, max) == Ok::<
        nat,
        number::NumeralError,
    >(value)
    &&& e.get(name) is None ==> value == default
}

/// Whether a variable that is set holds no number up to a bound.
pub open spec fn miscounts(e: Env, name: Seq<char>, max: nat) -> bool {
    e.get(name) matches Some(s) && number::unsigned_value(s, max) is Err
}

/// Whether a variable holds the number zero.
pub open spec fn counts_nothing(e: Env, name: Seq<char>, max: nat) -> bool {
    e.get(name) matches Some(s) && number::unsigned_value(s, max) == Ok::<nat, number::NumeralError>(
        0,
    )
}

/// A word for yes.
pub open spec fn means_yes(s: Seq<char>) -> bool {
    let w = text::trimmed(s).map_values(|c: char| text::ascii_lower(c));
    w == "true"@ || w == "1"@ || w == "yes"@ || w == "on"@
}

/// A word for no.
pub open spec fn means_no(s: Seq<char>) -> bool {
    let w = text::trimmed(s).map_values(|c: char| text::ascii_lower(c));
    w == "false"@ || w == "0"@ || w == "no"@ || w == "off"@
}

proof fn lemma_yes_is_not_no(s: Seq<char>)
    ensures
        !(means_yes(s) && means_no(s)),
{
    reveal_strlit("true");
    reveal_strlit("1");
    reveal_strlit("yes");
    reveal_strlit("on");
    reveal_strlit("false");
    reveal_strlit("0");
    reveal_strlit("no");
    reveal_strlit("off");
    assert("true"@[0] == 't' && "1"@[0] == '1' && "yes"@[0] == 'y' && "on"@[0] == 'o');
    assert("false"@[0] == 'f' && "0"@[0] == '0' && "no"@[0] == 'n' && "off"@[0] == 'o');
    assert("on"@.len() == 2 && "off"@.len() == 3);
}

/// Whether a flag is that of a variable, or stands for a missing one.
pub open spec fn flags(e: Env, name: Seq<char>, default: bool, value: bool) -> bool {
    &&& e.get(name) matches Some(s) ==> (value ==> means_yes(s)) && (!value ==> means_no(s))
    &&& e.get(name) is None ==> value == default
}

/// Whether a variable that is set holds no word for yes or no.
pub open spec fn misflags(e: Env, name: Seq<char>) -> bool {
    e.get(name) matches Some(s) && !means_yes(s) && !means_no(s)
}

/// A flag is yes or no in one of four words each, in any letters, and nothing else.
pub proof fn law_flags_are_words(e: &Env, name: &str, default: bool, r: Option<bool>)
    requires
        call_ensures(Env::parse_bool_env, (e, name, default), r),
    ensures
        r is None <==> misflags(*e, name@),
        r matches Some(b) ==> flags(*e, name@, default, b),
{
    if let Some(s) = e.get(name@) {
        lemma_yes_is_not_no(s);
    }
}

/// Whether an option holds the first of several variables that says anything, trimmed.
pub open spec fn reads_first(e: Env, names: Seq<Seq<char>>, value: Option<Seq<char>>) -> bool {
    &&& value matches Some(v) ==> exists|k: int|
        #![trigger names[k]]
        0 <= k < names.len() && says(e, names[k]) && v == text::trimmed(e.get(names[k])->Some_0) && (
        forall|i: int| 0 <= i < k ==> !says(e, #[trigger] names[i]))
    &&& value is None ==> forall|i: int| 0 <= i < names.len() ==> !says(e, #[trigger] names[i])
}

/// Whether a text is the first of several variables that says anything, trimmed, or stands for them
/// where none does.
pub open spec fn reads_first_or(
    e: Env,
    names: Seq<Seq<char>>,
    default: Seq<char>,
    value: Seq<char>,
) -> bool {
    exists|v: Option<Seq<char>>| #[trigger]
        reads_first(e, names, v) && value == match v {
            Some(s) => s,
            None => default,
        }
}

proof fn lemma_says(e: Env, name: Seq<char>)
    ensures
        env::filled(e.get(name)) == if says(e, name) {
            Some(text::trimmed(e.get(name)->Some_0))
        } else {
            None
        },
{
    if let Some(s) = e.get(name) {
        text::lemma_trimmed_empty(s);
    }
}

proof fn lemma_reads_first(e: Env, names: Seq<Seq<char>>)
    ensures
        reads_first(e, names, env::first_filled(e.vars@, names)),
    decreases names.len(),
{
    if names.len() > 0 {
        let rest = names.skip(1);
        lemma_says(e, names[0]);
        lemma_reads_first(e, rest);
        let value = env::first_filled(e.vars@, names);
        if says(e, names[0]) {
            assert(value == Some(text::trimmed(e.get(names[0])->Some_0)));
        } else if let Some(v) = value {
            let k = choose|k: int|
                #![trigger rest[k]]
                0 <= k < rest.len() && says(e, rest[k]) && v == text::trimmed(
                    e.get(rest[k])->Some_0,
                ) && (forall|i: int| 0 <= i < k ==> !says(e, #[trigger] rest[i]));
            assert(names[k + 1] == rest[k]);
            assert forall|i: int| 0 <= i < k + 1 implies !says(e, #[trigger] names[i]) by {
                if i > 0 {
                    assert(rest[i - 1] == names[i]);
                }
            }
        } else {
            assert forall|i: int| 0 <= i < names.len() implies !says(e, #[trigger] names[i]) by {
                if i > 0 {
                    assert(rest[i - 1] == names[i]);
                }
            }
        }
    }
}

/// Of several variables the first that says anything counts, trimmed.
pub proof fn law_first_filled_counts(e: &Env, names: &Vec<String>, r: Option<String>)
    requires
        call_ensures(Env::first_env, (e, names), r),
    ensures
        reads_first(*e, text::strings_view(names@), text::opt_view(r)),
{
    lemma_reads_first(*e, text::strings_view(names@));
}

/// A list is cut at its commas; its entries are trimmed, and empty ones are left out.
pub proof fn law_lists_are_cut_at_commas(
    e: &Env,
    name: &str,
    r: Vec<String>,
    chars: &Vec<char>,
    pieces: Vec<Vec<char>>,
)
    requires
        call_ensures(Env::parse_csv_env, (e, name), r),
        e.get(name@) matches Some(s) ==> chars@ == s,
        call_ensures(text::split_on, (chars, ','), pieces),
    ensures
        e.get(name@) is None ==> r@.len() == 0,
        e.get(name@) is Some ==> text::strings_view(r@) == text::pieces_view(pieces@).map_values(
            |p: Seq<char>| text::trimmed(p),
        ).filter(|p: Seq<char>| p.len() > 0),
{
    assert(text::strings_view(r@).len() == r@.len());
    if e.get(name@) is Some {
        lemma_filled_pieces(text::pieces_view(pieces@));
    }
}

proof fn lemma_filled_pieces(ps: Seq<Seq<char>>)
    ensures
        env::filled_pieces(ps) == ps.map_values(|p: Seq<char>| text::trimmed(p)).filter(
            |p: Seq<char>| p.len() > 0,
        ),
    decreases ps.len(),
{
    reveal(Seq::filter);
    let trim = |p: Seq<char>| text::trimmed(p);
    let full = |p: Seq<char>| p.len() > 0;
    if ps.len() > 0 {
        lemma_filled_pieces(ps.drop_last());
        assert(ps.map_values(trim).drop_last() =~= ps.drop_last().map_values(trim));
        assert(ps.map_values(trim).last() == text::trimmed(ps.last()));
    } else {
        assert(ps.map_values(trim) =~= Seq::empty());
    }
}

/// The general settings are those of their variables, or their defaults.
pub proof fn law_general_settings(
    e: &Env,
    provider: &LlmProvider,
    f: FloatSettings,
    r: Result<AppConfig, String>,
)
    requires
        call_ensures(AppConfig::from_env, (e, provider, f), r),
        r is Ok,
    ensures
        ({
            let c = r->Ok_0;
            &&& reads(
                *e,
                "APP_NAME"@,
                "mimic-shrimp-rs"@,
                c.app_name@,
            )
            &&& reads(
                *e,
                "SERVER_ADDR"@,
                "127.0.0.1:7878"@,
                c.server_addr@,
            )
            &&& reads(
                *e,
                "SYSTEM_PROMPT"@,
                "You are a tool-calling assistant inspired by OpenClaw. When deterministic work or external state is needed, call the available tools first, then synthesize a concise final answer."@,
                c.default_system_prompt@,
            )
            &&& reads(
                *e,
                "FORM_MARKDOWN_DIR"@,
                "./forms"@,
                c.forms.markdown_dir@,
            )
            &&& counts(*e, "MAX_TOOL_ITERATIONS"@, usize::MAX as nat, 12, c.max_iterations as nat)
            &&& counts(*e, "MAX_CONTEXT_MESSAGES"@, usize::MAX as nat, 20, c.max_context_messages as nat)
            &&& c.max_iterations > 0
            &&& c.max_context_messages > 0
        }),
{
}

/// The model is the configured one of the provider, under the first key that is set.
pub proof fn law_model_settings(
    e: &Env,
    provider: &LlmProvider,
    f: FloatSettings,
    r: Result<AppConfig, String>,
)
    requires
        call_ensures(AppConfig::from_env, (e, provider, f), r),
        r is Ok,
    ensures
        ({
            let c = r->Ok_0;
            &&& c.llm.provider@ == provider.name@
            &&& reads(*e, "LLM_MODEL"@, provider.default_model@, c.llm.model@)
            &&& reads_first(
                *e,
                text::strings_view(provider.api_key_envs@),
                Some(c.llm.api_key@),
            )
            &&& exists|v: Option<Seq<char>>| #[trigger]
                reads_first(*e, text::strings_view(provider.base_url_envs@), v) && text::opt_view(
                    c.llm.base_url,
                ) == (match v {
                    Some(url) => Some(url),
                    None => text::opt_view(provider.default_base_url),
                })
        }),
{
    lemma_reads_first(*e, text::strings_view(provider.api_key_envs@));
    lemma_reads_first(*e, text::strings_view(provider.base_url_envs@));
}

/// Media translation goes by its own variables first, then by those of the services.
pub proof fn law_media_settings(
    e: &Env,
    provider: &LlmProvider,
    f: FloatSettings,
    r: Result<AppConfig, String>,
)
    requires
        call_ensures(AppConfig::from_env, (e, provider, f), r),
        r is Ok,
    ensures
        ({
            let c = r->Ok_0;
            &&& reads_first(
                *e,
                seq!["MEDIA_TRANSLATE_API_KEY"@, "DASHSCOPE_API_KEY"@, "BAILIAN_API_KEY"@, "GLM_API_KEY"@],
                text::opt_view(c.media_translate.api_key),
            )
            &&& reads_first_or(
                *e,
                seq!["MEDIA_TRANSLATE_BASE_URL"@, "DASHSCOPE_BASE_URL"@, "BAILIAN_BASE_URL"@, "GLM_BASE_URL"@],
                "https://dashscope.aliyuncs.com/compatible-mode/v1"@,
                c.media_translate.base_url@,
            )
            &&& reads(
                *e,
                "MEDIA_TRANSLATE_MODEL"@,
                "qwen3-livetranslate-flash"@,
                c.media_translate.model@,
            )
        }),
{
    lemma_reads_first(
        *e,
        seq!["MEDIA_TRANSLATE_API_KEY"@, "DASHSCOPE_API_KEY"@, "BAILIAN_API_KEY"@, "GLM_API_KEY"@],
    );
    lemma_reads_first(
        *e,
        seq!["MEDIA_TRANSLATE_BASE_URL"@, "DASHSCOPE_BASE_URL"@, "BAILIAN_BASE_URL"@, "GLM_BASE_URL"@],
    );
}

/// Speech synthesis goes by its own variables; floats were read before.
pub proof fn law_speech_settings(
    e: &Env,
    provider: &LlmProvider,
    f: FloatSettings,
    r: Result<AppConfig, String>,
)
    requires
        call_ensures(AppConfig::from_env, (e, provider, f), r),
        r is Ok,
    ensures
        ({
            let c = r->Ok_0;
            &&& reads_first(
                *e,
                seq!["SPEECH_SYNTHESIS_API_KEY"@, "SILICONFLOW_API_KEY"@],
                text::opt_view(c.speech_synthesis.api_key),
            )
            &&& reads_first_or(
                *e,
                seq!["SPEECH_SYNTHESIS_BASE_URL"@, "SILICONFLOW_BASE_URL"@],
                "https://api.siliconflow.cn/v1"@,
                c.speech_synthesis.base_url@,
            )
            &&& reads(
                *e,
                "SPEECH_SYNTHESIS_MODEL"@,
                "MOSS-TTSD-v0.5"@,
                c.speech_synthesis.model@,
            )
            &&& says(*e, "SPEECH_SYNTHESIS_VOICE"@) ==> (c.speech_synthesis.voice matches Some(v) && v@
                == text::trimmed(e.get("SPEECH_SYNTHESIS_VOICE"@)->Some_0))
            &&& !says(*e, "SPEECH_SYNTHESIS_VOICE"@) ==> (c.speech_synthesis.voice matches Some(v) && v@
                == "alex"@)
            &&& reads(
                *e,
                "SPEECH_SYNTHESIS_RESPONSE_FORMAT"@,
                "mp3"@,
                c.speech_synthesis.response_format@,
            )
            &&& e.get("SPEECH_SYNTHESIS_SAMPLE_RATE"@) is None ==> c.speech_synthesis.sample_rate is None
            &&& e.get("SPEECH_SYNTHESIS_SAMPLE_RATE"@) matches Some(s) ==> (
            c.speech_synthesis.sample_rate matches Some(n) && number::unsigned_value(
                s,
                u32::MAX as nat,
            ) == Ok::<nat, number::NumeralError>(n as nat))
            &&& f.speed matches FloatReading::Bits(bits) ==> c.speech_synthesis.speed == bits
            &&& f.speed is Unset ==> c.speech_synthesis.speed == 0x3f80_0000
            &&& f.gain matches FloatReading::Bits(bits) ==> c.speech_synthesis.gain == bits
            &&& f.gain is Unset ==> c.speech_synthesis.gain == 0
            &&& flags(*e, "SPEECH_SYNTHESIS_STREAM"@, false, c.speech_synthesis.stream)
        }),
{
    lemma_reads_first(
        *e,
        seq!["SPEECH_SYNTHESIS_API_KEY"@, "SILICONFLOW_API_KEY"@],
    );
    lemma_reads_first(
        *e,
        seq!["SPEECH_SYNTHESIS_BASE_URL"@, "SILICONFLOW_BASE_URL"@],
    );
    lemma_says(*e, "SPEECH_SYNTHESIS_VOICE"@);
}

/// The lesson goes by its own variables, and reads one source of news where none is named.
pub proof fn law_lesson_settings(
    e: &Env,
    provider: &LlmProvider,
    f: FloatSettings,
    r: Result<AppConfig, String>,
)
    requires
        call_ensures(AppConfig::from_env, (e, provider, f), r),
        r is Ok,
    ensures
        ({
            let c = r->Ok_0;
            &&& flags(*e, "ENGLISH_LEARNING_ENABLED"@, true, c.english_learning.enabled)
            &&& flags(*e, "ENGLISH_LEARNING_SCHEDULER_ENABLED"@, true, c.english_learning.scheduler_enabled)
            &&& counts(*e, "ENGLISH_LEARNING_SCHEDULE_HOUR"@, u32::MAX as nat, 9, c.english_learning.schedule_hour as nat)
            &&& c.english_learning.schedule_hour <= 23
            &&& e.get("ENGLISH_LEARNING_TZ_OFFSET_HOURS"@) is None
                ==> c.english_learning.timezone_offset_hours == 8
            &&& e.get("ENGLISH_LEARNING_TZ_OFFSET_HOURS"@) matches Some(s) ==> number::signed_value(
                s,
                i32::MIN as int,
                i32::MAX as int,
            ) == Ok::<int, number::NumeralError>(c.english_learning.timezone_offset_hours as int)
            &&& -23 <= c.english_learning.timezone_offset_hours <= 23
            &&& reads(
                *e,
                "ENGLISH_LEARNING_STORAGE_DIR"@,
                "./learning_data"@,
                c.english_learning.storage_dir@,
            )
            &&& ({
                let named = env::entries_of(e.get("ENGLISH_LEARNING_NEWS_SOURCES"@));
                &&& named.len() > 0 ==> text::strings_view(c.english_learning.news_sources@)
                    == named
                &&& named.len() == 0 ==> c.english_learning.news_sources@.len() == 1
                    && c.english_learning.news_sources@[0]@
                    == "https://feeds.bbci.co.uk/news/world/rss.xml"@
            })
            &&& counts(*e, "ENGLISH_LEARNING_MAX_FEED_ITEMS_PER_SOURCE"@, usize::MAX as nat, 5, c.english_learning.max_feed_items_per_source as nat)
        }),
{
    let sources = r->Ok_0.english_learning.news_sources@;
    assert(text::strings_view(sources).len() == sources.len());
    if sources.len() > 0 {
        assert(text::strings_view(sources)[0] == sources[0]@);
    }
}

/// Feishu goes by its own variables first, then by the shorter ones.
pub proof fn law_feishu_settings(
    e: &Env,
    provider: &LlmProvider,
    f: FloatSettings,
    r: Result<AppConfig, String>,
)
    requires
        call_ensures(AppConfig::from_env, (e, provider, f), r),
        r is Ok,
    ensures
        ({
            let c = r->Ok_0;
            &&& reads_first(
                *e,
                seq!["FEISHU_CALLBACK_VERIFICATION_TOKEN"@, "FEISHU_VERIFICATION_TOKEN"@],
                text::opt_view(c.feishu_callback.verification_token),
            )
            &&& reads_first(
                *e,
                seq!["FEISHU_CALLBACK_ENCRYPT_KEY"@, "FEISHU_ENCRYPT_KEY"@],
                text::opt_view(c.feishu_callback.encrypt_key),
            )
            &&& reads_first(
                *e,
                seq!["FEISHU_APP_ID"@, "APP_ID"@],
                text::opt_view(c.feishu_callback.app_id),
            )
            &&& reads_first(
                *e,
                seq!["FEISHU_APP_SECRET"@, "APP_SECRET"@],
                text::opt_view(c.feishu_callback.app_secret),
            )
            &&& reads(
                *e,
                "FEISHU_OPEN_BASE_URL"@,
                "https://open.feishu.cn"@,
                c.feishu_callback.open_base_url@,
            )
            &&& flags(*e, "FEISHU_BOT_REQUIRE_MENTION"@, true, c.feishu_callback.require_mention)
            &&& reads_trimmed(*e, "FEISHU_AUDIO_SOURCE_LANG"@, c.feishu_callback.audio_source_lang)
            &&& reads(
                *e,
                "FEISHU_AUDIO_TARGET_LANG"@,
                "zh"@,
                c.feishu_callback.audio_target_lang@,
            )
        }),
{
    lemma_reads_first(
        *e,
        seq!["FEISHU_CALLBACK_VERIFICATION_TOKEN"@, "FEISHU_VERIFICATION_TOKEN"@],
    );
    lemma_reads_first(
        *e,
        seq!["FEISHU_CALLBACK_ENCRYPT_KEY"@, "FEISHU_ENCRYPT_KEY"@],
    );
    lemma_reads_first(
        *e,
        seq!["FEISHU_APP_ID"@, "APP_ID"@],
    );
    lemma_reads_first(
        *e,
        seq!["FEISHU_APP_SECRET"@, "APP_SECRET"@],
    );
    lemma_says(*e, "FEISHU_AUDIO_SOURCE_LANG"@);
}

/// Weixin goes by its own variables.
pub proof fn law_weixin_settings(
    e: &Env,
    provider: &LlmProvider,
    f: FloatSettings,
    r: Result<AppConfig, String>,
)
    requires
        call_ensures(AppConfig::from_env, (e, provider, f), r),
        r is Ok,
    ensures
        ({
            let c = r->Ok_0;
            &&& flags(*e, "WEIXIN_ENABLED"@, false, c.weixin_channel.enabled)
            &&& reads(
                *e,
                "WEIXIN_API_BASE_URL"@,
                "https://ilinkai.weixin.qq.com"@,
                c.weixin_channel.base_url@,
            )
            &&& reads(
                *e,
                "WEIXIN_CDN_BASE_URL"@,
                "https://novac2c.cdn.weixin.qq.com/c2c"@,
                c.weixin_channel.cdn_base_url@,
            )
            &&& reads(
                *e,
                "WEIXIN_STATE_DIR"@,
                "./channel_state/weixin"@,
                c.weixin_channel.state_dir@,
            )
            &&& reads_trimmed(*e, "WEIXIN_ROUTE_TAG"@, c.weixin_channel.route_tag)
            &&& reads(
                *e,
                "WEIXIN_ILINK_APP_ID"@,
                "bot"@,
                c.weixin_channel.ilink_app_id@,
            )
            &&& reads(
                *e,
                "WEIXIN_BOT_TYPE"@,
                "3"@,
                c.weixin_channel.bot_type@,
            )
            &&& counts(*e, "WEIXIN_LOGIN_TIMEOUT_MS"@, u64::MAX as nat, 480_000, c.weixin_channel.login_timeout_ms as nat)
            &&& counts(*e, "WEIXIN_LONG_POLL_TIMEOUT_MS"@, u64::MAX as nat, 35_000, c.weixin_channel.long_poll_timeout_ms as nat)
            &&& counts(*e, "WEIXIN_RETRY_DELAY_MS"@, u64::MAX as nat, 2_000, c.weixin_channel.retry_delay_ms as nat)
            &&& counts(*e, "WEIXIN_BACKOFF_DELAY_MS"@, u64::MAX as nat, 30_000, c.weixin_channel.backoff_delay_ms as nat)
            &&& counts(*e, "WEIXIN_SESSION_PAUSE_MINUTES"@, u64::MAX as nat, 60, c.weixin_channel.session_pause_minutes as nat)
            &&& counts(*e, "WEIXIN_SUPERVISOR_INTERVAL_MS"@, u64::MAX as nat, 30_000, c.weixin_channel.supervisor_interval_ms as nat)
            &&& counts(*e, "WEIXIN_SUPERVISOR_STALE_AFTER_MS"@, u64::MAX as nat, 0, c.weixin_channel.supervisor_stale_after_ms as nat)
            &&& counts(*e, "WEIXIN_SUPERVISOR_RESTART_GAP_MS"@, u64::MAX as nat, 0, c.weixin_channel.supervisor_restart_gap_ms as nat)
        }),
{
    lemma_says(*e, "WEIXIN_ROUTE_TAG"@);
}

/// The shell tool goes by its own variables, and is offered only where that is asked for.
pub proof fn law_shell_settings(
    e: &Env,
    provider: &LlmProvider,
    f: FloatSettings,
    r: Result<AppConfig, String>,
)
    requires
        call_ensures(AppConfig::from_env, (e, provider, f), r),
        r is Ok,
    ensures
        ({
            let c = r->Ok_0;
            &&& flags(*e, "EXEC_COMMAND_TOOL_ENABLED"@, false, c.exec_command_tool.enabled)
            &&& reads(
                *e,
                "EXEC_COMMAND_TOOL_SHELL"@,
                "/bin/sh"@,
                c.exec_command_tool.shell@,
            )
            &&& counts(*e, "EXEC_COMMAND_TOOL_TIMEOUT_SECS"@, u64::MAX as nat, 20, c.exec_command_tool.timeout_secs as nat)
            &&& counts(*e, "EXEC_COMMAND_TOOL_MAX_OUTPUT_CHARS"@, usize::MAX as nat, 4000, c.exec_command_tool.max_output_chars as nat)
        }),
{
}

/// Settings are refused exactly where the model has no key or a variable is out of its bounds or no
/// number, flag or float; and the first of these that is found is told, in its own words.
pub proof fn law_first_problem_is_told(
    e: &Env,
    provider: &LlmProvider,
    f: FloatSettings,
    r: Result<AppConfig, String>,
)
    requires
        call_ensures(AppConfig::from_env, (e, provider, f), r),
    ensures
        if (forall|i: int|
            0 <= i < provider.api_key_envs@.len() ==> !says(*e, (#[trigger] provider.api_key_envs@[i])@)) {
            r matches Err(m) && m@ == "missing one of "@ + text::joined(
                text::strings_view(provider.api_key_envs@),
                ", "@,
            )
        }         else if miscounts(*e, "MAX_TOOL_ITERATIONS"@, usize::MAX as nat) {
            r matches Err(m) && m@ == "invalid MAX_TOOL_ITERATIONS: "@ + e.get("MAX_TOOL_ITERATIONS"@)->Some_0
        }         else if counts_nothing(*e, "MAX_TOOL_ITERATIONS"@, usize::MAX as nat) {
            r matches Err(m) && m@ == "MAX_TOOL_ITERATIONS must be greater than 0"@
        }         else if miscounts(*e, "MAX_CONTEXT_MESSAGES"@, usize::MAX as nat) {
            r matches Err(m) && m@ == "invalid MAX_CONTEXT_MESSAGES: "@ + e.get("MAX_CONTEXT_MESSAGES"@)->Some_0
        }         else if counts_nothing(*e, "MAX_CONTEXT_MESSAGES"@, usize::MAX as nat) {
            r matches Err(m) && m@ == "MAX_CONTEXT_MESSAGES must be greater than 0"@
        }         else if miscounts(*e, "ENGLISH_LEARNING_SCHEDULE_HOUR"@, u32::MAX as nat) {
            r matches Err(m) && m@ == "invalid ENGLISH_LEARNING_SCHEDULE_HOUR: "@ + e.get("ENGLISH_LEARNING_SCHEDULE_HOUR"@)->Some_0
        }         else if e.get("ENGLISH_LEARNING_SCHEDULE_HOUR"@) is Some && number::unsigned_value(
            e.get("ENGLISH_LEARNING_SCHEDULE_HOUR"@)->Some_0,
            u32::MAX as nat,
        )->Ok_0 > 23 {
            r matches Err(m) && m@ == "ENGLISH_LEARNING_SCHEDULE_HOUR must be between 0 and 23"@
        }         else if e.get("ENGLISH_LEARNING_TZ_OFFSET_HOURS"@) is Some && number::signed_value(
            e.get("ENGLISH_LEARNING_TZ_OFFSET_HOURS"@)->Some_0,
            i32::MIN as int,
            i32::MAX as int,
        ) is Err {
            r matches Err(m) && m@ == "invalid ENGLISH_LEARNING_TZ_OFFSET_HOURS: "@ + e.get("ENGLISH_LEARNING_TZ_OFFSET_HOURS"@)->Some_0
        }         else if e.get("ENGLISH_LEARNING_TZ_OFFSET_HOURS"@) is Some && !(-23 <= number::signed_value(
            e.get("ENGLISH_LEARNING_TZ_OFFSET_HOURS"@)->Some_0,
            i32::MIN as int,
            i32::MAX as int,
        )->Ok_0 <= 23) {
            r matches Err(m) && m@ == "ENGLISH_LEARNING_TZ_OFFSET_HOURS must be between -23 and 23"@
        }         else if miscounts(*e, "SPEECH_SYNTHESIS_SAMPLE_RATE"@, u32::MAX as nat) {
            r matches Err(m) && m@ == "invalid SPEECH_SYNTHESIS_SAMPLE_RATE: "@ + e.get("SPEECH_SYNTHESIS_SAMPLE_RATE"@)->Some_0
        }         else if f.speed is Invalid {
            r matches Err(m) && m@ == "invalid SPEECH_SYNTHESIS_SPEED, expected float"@
        }         else if f.gain is Invalid {
            r matches Err(m) && m@ == "invalid SPEECH_SYNTHESIS_GAIN, expected float"@
        }         else if misflags(*e, "SPEECH_SYNTHESIS_STREAM"@) {
            r matches Err(m) && m@ == "invalid SPEECH_SYNTHESIS_STREAM, expected true/false"@
        }         else if misflags(*e, "ENGLISH_LEARNING_ENABLED"@) {
            r matches Err(m) && m@ == "invalid ENGLISH_LEARNING_ENABLED, expected true/false"@
        }         else if misflags(*e, "ENGLISH_LEARNING_SCHEDULER_ENABLED"@) {
            r matches Err(m) && m@ == "invalid ENGLISH_LEARNING_SCHEDULER_ENABLED, expected true/false"@
        }         else if miscounts(*e, "ENGLISH_LEARNING_MAX_FEED_ITEMS_PER_SOURCE"@, usize::MAX as nat) {
            r matches Err(m) && m@ == "invalid ENGLISH_LEARNING_MAX_FEED_ITEMS_PER_SOURCE, expected integer"@
        }         else if misflags(*e, "FEISHU_BOT_REQUIRE_MENTION"@) {
            r matches Err(m) && m@ == "invalid FEISHU_BOT_REQUIRE_MENTION, expected true/false"@
        }         else if misflags(*e, "WEIXIN_ENABLED"@) {
            r matches Err(m) && m@ == "invalid WEIXIN_ENABLED, expected true/false"@
        }         else if miscounts(*e, "WEIXIN_LOGIN_TIMEOUT_MS"@, u64::MAX as nat) {
            r matches Err(m) && m@ == "invalid WEIXIN_LOGIN_TIMEOUT_MS, expected integer"@
        }         else if miscounts(*e, "WEIXIN_LONG_POLL_TIMEOUT_MS"@, u64::MAX as nat) {
            r matches Err(m) && m@ == "invalid WEIXIN_LONG_POLL_TIMEOUT_MS, expected integer"@
        }         else if miscounts(*e, "WEIXIN_RETRY_DELAY_MS"@, u64::MAX as nat) {
            r matches Err(m) && m@ == "invalid WEIXIN_RETRY_DELAY_MS, expected integer"@
        }         else if miscounts(*e, "WEIXIN_BACKOFF_DELAY_MS"@, u64::MAX as nat) {
            r matches Err(m) && m@ == "invalid WEIXIN_BACKOFF_DELAY_MS, expected integer"@
        }         else if miscounts(*e, "WEIXIN_SESSION_PAUSE_MINUTES"@, u64::MAX as nat) {
            r matches Err(m) && m@ == "invalid WEIXIN_SESSION_PAUSE_MINUTES, expected integer"@
        }         else if miscounts(*e, "WEIXIN_SUPERVISOR_INTERVAL_MS"@, u64::MAX as nat) {
            r matches Err(m) && m@ == "invalid WEIXIN_SUPERVISOR_INTERVAL_MS, expected integer"@
        }         else if miscounts(*e, "WEIXIN_SUPERVISOR_STALE_AFTER_MS"@, u64::MAX as nat) {
            r matches Err(m) && m@ == "invalid WEIXIN_SUPERVISOR_STALE_AFTER_MS, expected integer"@
        }         else if miscounts(*e, "WEIXIN_SUPERVISOR_RESTART_GAP_MS"@, u64::MAX as nat) {
            r matches Err(m) && m@ == "invalid WEIXIN_SUPERVISOR_RESTART_GAP_MS, expected integer"@
        }         else if misflags(*e, "EXEC_COMMAND_TOOL_ENABLED"@) {
            r matches Err(m) && m@ == "invalid EXEC_COMMAND_TOOL_ENABLED, expected true/false"@
        }         else if miscounts(*e, "EXEC_COMMAND_TOOL_TIMEOUT_SECS"@, u64::MAX as nat) {
            r matches Err(m) && m@ == "invalid EXEC_COMMAND_TOOL_TIMEOUT_SECS, expected integer"@
        }         else if miscounts(*e, "EXEC_COMMAND_TOOL_MAX_OUTPUT_CHARS"@, usize::MAX as nat) {
            r matches Err(m) && m@ == "invalid EXEC_COMMAND_TOOL_MAX_OUTPUT_CHARS, expected integer"@
        } else {
            r is Ok
        },
{
    let names = text::strings_view(provider.api_key_envs@);
    lemma_reads_first(*e, names);
    assert forall|i: int| 0 <= i < names.len() implies #[trigger] names[i]
        == provider.api_key_envs@[i]@ by {}
    if env::first_filled(e.vars@, names) is None {
        assert forall|i: int| 0 <= i < provider.api_key_envs@.len() implies !says(
            *e,
            (#[trigger] provider.api_key_envs@[i])@,
        ) by {
            assert(!says(*e, names[i]));
        }
    } else {
        let v = env::first_filled(e.vars@, names)->Some_0;
        let k = choose|k: int|
            #![trigger names[k]]
            0 <= k < names.len() && says(*e, names[k]) && v == text::trimmed(
                e.get(names[k])->Some_0,
            ) && (forall|i: int| 0 <= i < k ==> !says(*e, #[trigger] names[i]));
        assert(says(*e, provider.api_key_envs@[k]@));
    }
}

} // verus!
