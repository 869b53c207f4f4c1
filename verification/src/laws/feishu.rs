//! What holds of the Feishu channel.

use vstd::prelude::*;
use vstd::string::*;

use crate::capability::speech::{SpeechSynthesisRequest, SpeechSynthesisResponse};
use crate::capability::ConversationRequest;
use crate::channel::audio;
use crate::channel::english;
use crate::channel::feishu;
use crate::channel::feishu::{AfterReply, AudioEvent, AudioJob, AudioState};
use crate::channel::{
    InboundAudioMessage, InboundTextMessage, OutboundAudioReply, OutboundTextReply,
};
use crate::config::channel::FeishuCallbackConfig;
use crate::encoding;
use crate::text;

verus! {

/// A text message is answered on its own channel, as a reply to that very message and in its session,
/// with the answer word for word.
pub proof fn law_answer_goes_to_the_message(
    event: &InboundTextMessage,
    answer: &str,
    r: OutboundTextReply,
)
    requires
        call_ensures(feishu::text_reply, (event, answer), r),
    ensures
        r.channel == event.channel,
        r.reply_to_message_id@ == event.message_id@,
        r.session_id@ == event.session_id@,
        r.text@ == answer@,
{
}

/// An event is acknowledged with code zero.
pub proof fn law_acknowledgement(r: String)
    requires
        call_ensures(feishu::callback_ack, (), r),
    ensures
        r@ == "{\"code\":0,\"msg\":\"ok\"}"@,
{
}

/// A voice message of no length is answered at once and not downloaded; any other is downloaded.
pub proof fn law_empty_sound_is_not_downloaded(event: &InboundAudioMessage, r: AudioState)
    requires
        call_ensures(feishu::begin_audio, (event,), r),
    ensures
        event.duration_ms == Some(0u64) ==> (r matches AudioState::Reply { text, next } && next is
            Finish && text@
            == "我收到了这条语音，但飞书回调里显示时长是 0 秒。这种语音通常无法稳定转写，请重新录一条 1 秒以上、内容更完整的语音。"@),
        event.duration_ms != Some(0u64) ==> r is Download,
{
}

/// The settings decide between which languages speech is written down.
pub proof fn law_job_goes_by_the_settings(
    event: InboundAudioMessage,
    config: &FeishuCallbackConfig,
    configured: bool,
    r: AudioJob,
)
    requires
        call_ensures(AudioJob::new, (event, config, configured), r),
    ensures
        r.event == event,
        text::opt_view(r.source_lang) == text::opt_view(config.audio_source_lang),
        r.target_lang@ == config.audio_target_lang@,
        r.speech_configured == configured,
{
}

/// The sound that was downloaded is what is written down, byte for byte and in its own format; in a
/// lesson from English into English, else between the configured languages.
pub proof fn law_sound_is_written_down(
    job: &AudioJob,
    state: AudioState,
    event: AudioEvent,
    next: AudioState,
)
    requires
        call_ensures(feishu::handle_audio_message_event, (job, state, event), next),
        state is Download,
        event is Downloaded,
    ensures
        event matches AudioEvent::Downloaded { mime_type, format, bytes, learning } && (
        next matches AudioState::Translate { request, learning: l } && {
            &&& l == learning
            &&& request.audio_data_url@ == "data:"@ + mime_type@ + ";base64,"@
                + encoding::base64_of(bytes@, false, true)
            &&& request.audio_format@ == format@
            &&& request.include_usage
            &&& learning ==> request.target_lang@ == "en"@ && (
            request.source_lang matches Some(l) && l@ == "en"@)
            &&& !learning ==> request.target_lang@ == job.target_lang@ && text::opt_view(
                request.source_lang,
            ) == text::opt_view(job.source_lang)
        }),
{
}

/// What was said goes to the lesson, trimmed. Where it could not be written down the user is told so
/// and handling fails; where nothing was said the user is told that and handling ends.
pub proof fn law_speech_goes_to_the_lesson(
    job: &AudioJob,
    state: AudioState,
    event: AudioEvent,
    next: AudioState,
)
    requires
        call_ensures(feishu::handle_audio_message_event, (job, state, event), next),
        state is Translate,
        event is Translated,
    ensures
        event matches AudioEvent::Translated { outcome } && match outcome {
            Ok(said) => if text::is_blank(said@) {
                next matches AudioState::Reply { text, next: AfterReply::Finish } && text@
                    == "我收到了语音消息，但这次没有成功识别出可用文本。"@
            } else {
                next matches AudioState::Lesson { transcript } && transcript@ == text::trimmed(said@)
            },
            Err(error) => next matches AudioState::Reply {
                text,
                next: AfterReply::Fail { message },
            } && message@ == "failed to transcribe channel audio: "@ + error@ && text@
                == if state->Translate_learning {
                "我收到了这条英语跟读语音，但这次没有成功识别出英文文本。请尽量录制 1 秒以上、语速稍慢一点、环境更安静的语音后再试。"@
            } else {
                "我收到了这条语音，但这次没有成功识别出可用文本。请重新录一条更清晰、稍长一点的语音后再试。"@
            },
        },
{
    if let AudioEvent::Translated { outcome } = event {
        if let Ok(said) = outcome {
            text::lemma_trimmed_empty(said@);
        }
    }
}

/// Whether a state sends an answer to what was said.
pub open spec fn answers_with(state: AudioState, answer: Seq<char>, said: Seq<char>) -> bool {
    state matches AudioState::Reply { text, next: AfterReply::Speak { transcript } } && text@
        == answer && transcript@ == said
}

/// What was said is answered by the lesson where it replies, trimmed; else it is offered as an
/// exercise, and where that brings no reply either it is answered in a conversation.
pub proof fn law_speech_is_answered_in_turn(
    job: &AudioJob,
    state: AudioState,
    event: AudioEvent,
    next: AudioState,
)
    requires
        call_ensures(feishu::handle_audio_message_event, (job, state, event), next),
    ensures
        state matches AudioState::Lesson { transcript } ==> (
        event matches AudioEvent::LessonReplied { reply } ==> match reply {
            Some(s) => if text::is_blank(s@) {
                next matches AudioState::Shadowing { transcript: t } && t@ == transcript@
            } else {
                answers_with(next, text::trimmed(s@), transcript@)
            },
            None => next matches AudioState::Shadowing { transcript: t } && t@ == transcript@,
        }),
        state matches AudioState::Shadowing { transcript } ==> (
        event matches AudioEvent::ShadowingReplied { reply } ==> match reply {
            Some(s) => if text::is_blank(s@) {
                next matches AudioState::Converse { transcript: t } && t@ == transcript@
            } else {
                answers_with(next, text::trimmed(s@), transcript@)
            },
            None => next matches AudioState::Converse { transcript: t } && t@ == transcript@,
        }),
        state matches AudioState::Converse { transcript } ==> (
        event matches AudioEvent::Answered { answer } ==> answers_with(
            next,
            if text::is_blank(answer@) {
                "我暂时还没有合适的回复，请稍后再试。"@
            } else {
                answer@
            },
            transcript@,
        )),
{
    match event {
        AudioEvent::LessonReplied { reply } => {
            if let Some(s) = reply {
                text::lemma_trimmed_empty(s@);
            }
        },
        AudioEvent::ShadowingReplied { reply } => {
            if let Some(s) = reply {
                text::lemma_trimmed_empty(s@);
            }
        },
        _ => {},
    }
}

/// Once the text was sent the answer is spoken too, as it is prepared for speech, where that is
/// configured and both sides are English; else handling ends. A failure is passed on.
pub proof fn law_answer_is_spoken_after_it_was_sent(
    job: &AudioJob,
    state: AudioState,
    event: AudioEvent,
    next: AudioState,
    said: &str,
    answer: &str,
    english_both: bool,
    words: String,
)
    requires
        call_ensures(feishu::handle_audio_message_event, (job, state, event), next),
        event is ReplySent,
        call_ensures(english::should_send_english_audio_reply, (said, answer), english_both),
        call_ensures(english::normalize_text_for_speech, (answer,), words),
    ensures
        state matches AudioState::Reply { text, next: after } ==> match after {
            AfterReply::Finish => next matches AudioState::Done { warning } && warning is None,
            AfterReply::Fail { message } => next matches AudioState::Failed { message: m } && m@
                == message@,
            AfterReply::Speak { transcript } => said@ == transcript@ && answer@ == text@ ==> if
                job.speech_configured && english_both {
                next matches AudioState::Speak { speech } && asks_to_speak(
                    speech,
                    words@,
                    "opus"@,
                    48_000,
                )
            } else {
                next matches AudioState::Done { warning } && warning is None
            },
        },
{
}

/// Whether a request asks for words in a format at a sample rate, all at once, and leaves the rest to
/// the settings.
pub open spec fn asks_to_speak(
    request: SpeechSynthesisRequest,
    words: Seq<char>,
    format: Seq<char>,
    rate: u32,
) -> bool {
    &&& request.text@ == words
    &&& request.response_format matches Some(f) && f@ == format
    &&& request.sample_rate == Some(rate)
    &&& request.stream == Some(false)
    &&& request.model is None
    &&& request.voice is None
    &&& request.speed is None
    &&& request.gain is None
}

/// What the speech service sent goes out as a reply to the same message, byte for byte; with how long
/// it plays, where its headers tell.
pub proof fn law_spoken_answer_goes_to_the_message(
    job: &AudioJob,
    state: AudioState,
    response: SpeechSynthesisResponse,
    next: AudioState,
    sent: &[u8],
    format: &str,
    duration: Option<u64>,
)
    requires
        call_ensures(
            feishu::handle_audio_message_event,
            (job, state, AudioEvent::Spoken { response }),
            next,
        ),
        state is Speak,
        response.audio_base64@ == encoding::base64_of(sent@, false, true),
        format@ == response.response_format@,
        call_ensures(audio::estimate_audio_duration_ms, (format, sent), duration),
    ensures
        next matches AudioState::SendAudio { reply } && {
            &&& reply.bytes@ == sent@
            &&& reply.channel == job.event.channel
            &&& reply.reply_to_message_id@ == job.event.message_id@
            &&& reply.session_id@ == job.event.session_id@
            &&& reply.file_name@ == "english-reply."@ + response.response_format@
            &&& reply.file_format@ == response.response_format@
            &&& reply.content_type@ == response.content_type@
            &&& reply.duration_ms == duration
        },
{
    if let AudioState::SendAudio { reply } = next {
        encoding::law_base64_is_reversible(reply.bytes@, sent@, false, true);
    }
}

/// That speaking failed is noted with its reason, and the user has been answered anyway; that the
/// spoken answer was sent ends handling.
pub proof fn law_failed_speech_is_only_noted(
    job: &AudioJob,
    state: AudioState,
    event: AudioEvent,
    next: AudioState,
)
    requires
        call_ensures(feishu::handle_audio_message_event, (job, state, event), next),
        state is Speak || state is SendAudio,
    ensures
        event matches AudioEvent::SpeechFailed { error } ==> (next matches AudioState::Done {
            warning: Some(w),
        } && w@ == "failed to send synthesized english audio reply: "@ + error@),
        state is SendAudio && event is AudioSent ==> (next matches AudioState::Done { warning }
            && warning is None),
{
}

/// What is sent and what is said in a conversation belong to the message that is handled.
pub proof fn law_steps_belong_to_the_message(
    job: &AudioJob,
    state: &AudioState,
    sent: Option<OutboundTextReply>,
    held: Option<ConversationRequest>,
)
    requires
        call_ensures(feishu::pending_reply, (job, state), sent),
        call_ensures(feishu::pending_conversation, (job, state), held),
    ensures
        *state matches AudioState::Reply { text, .. } ==> (sent matches Some(reply) && {
            &&& reply.text@ == text@
            &&& reply.channel == job.event.channel
            &&& reply.reply_to_message_id@ == job.event.message_id@
            &&& reply.session_id@ == job.event.session_id@
        }),
        *state matches AudioState::Converse { transcript } ==> (held matches Some(request) && {
            &&& request.message@ == transcript@
            &&& request.session_id@ == job.event.session_id@
            &&& request.user_id@ == job.event.user_id@
            &&& request.persist
            &&& request.system_prompt is None
            &&& request.max_iterations is None
        }),
        sent is Some <==> *state is Reply,
        held is Some <==> *state is Converse,
{
}

} // verus!
