//! The Feishu channel: how text and voice messages are handled, step by step.

use vstd::prelude::*;
use vstd::string::*;

use crate::capability::speech::{SpeechSynthesisRequest, SpeechSynthesisResponse};
use crate::capability::{ConversationRequest, MediaTranslateRequest};
use crate::channel::audio;
use crate::channel::english;
use crate::channel::reply;
use crate::channel::reply::{ReplyStep, ReplyStepView};
use crate::channel::{InboundAudioMessage, InboundTextMessage, OutboundAudioReply, OutboundTextReply};
use crate::config::channel::FeishuCallbackConfig;
use crate::encoding;
use crate::outside;
use crate::text;

verus! {

/// The JSON text by which an event is acknowledged.
pub open spec fn ack_text() -> Seq<char> {
    "{\"code\":0,\"msg\":\"ok\"}"@
}

/// Acknowledges an event.
pub fn callback_ack() -> (r: String)
    ensures
        r@ == ack_text(),
{
    "{\"code\":0,\"msg\":\"ok\"}".to_owned()
}

/// The reply to a text message.
pub fn text_reply(event: &InboundTextMessage, answer: &str) -> (r: OutboundTextReply)
    ensures
        r.channel == event.channel,
        r.reply_to_message_id@ == event.message_id@,
        r.session_id@ == event.session_id@,
        r.text@ == answer@,
{
    OutboundTextReply {
        channel: event.channel,
        reply_to_message_id: event.message_id.clone(),
        session_id: event.session_id.clone(),
        text: answer.to_owned(),
    }
}

/// What the handling of a voice message goes by.
#[derive(Debug)]
pub struct AudioJob {
    pub event: InboundAudioMessage,
    /// The language that is spoken outside lessons, where it is known.
    pub source_lang: Option<String>,
    /// The language that speech is written down in outside lessons.
    pub target_lang: String,
    /// Whether answers can be spoken.
    pub speech_configured: bool,
}

impl AudioJob {
    /// The job for a voice message.
    pub fn new(
        event: InboundAudioMessage,
        config: &FeishuCallbackConfig,
        speech_configured: bool,
    ) -> (r: Self)
        ensures
            r.event == event,
            r.source_lang == config.audio_source_lang,
            r.target_lang@ == config.audio_target_lang@,
            r.speech_configured == speech_configured,
    {
        AudioJob {
            event,
            source_lang: config.audio_source_lang.clone(),
            target_lang: config.audio_target_lang.clone(),
            speech_configured,
        }
    }
}

/// What is done once a text reply was sent.
#[derive(Debug)]
pub enum AfterReply {
    Finish,
    Fail { message: String },
    /// Perhaps answer aloud too.
    Speak { transcript: String },
}

/// How far the handling of a voice message has come.
#[derive(Debug)]
pub enum AudioState {
    /// The sound is to be downloaded.
    Download,
    /// The sound is to be written down.
    Translate { request: MediaTranslateRequest, learning: bool },
    /// The lesson is offered what was said.
    Lesson { transcript: String },
    /// The lesson is offered what was said as a shadowing exercise.
    Shadowing { transcript: String },
    /// What was said is answered in a conversation.
    Converse { transcript: String },
    /// A text is to be sent.
    Reply { text: String, next: AfterReply },
    /// The answer is to be spoken.
    Speak { speech: SpeechSynthesisRequest },
    /// The spoken answer is to be sent.
    SendAudio { reply: OutboundAudioReply },
    /// Handling failed.
    Failed { message: String },
    /// All is done; something may have gone wrong that the user need not know.
    Done { warning: Option<String> },
}

/// What comes in while a voice message is handled.
#[derive(Debug)]
pub enum AudioEvent {
    /// The sound, and whether the session is in a lesson.
    Downloaded { mime_type: String, format: String, bytes: Vec<u8>, learning: bool },
    /// What was said, or why it could not be written down.
    Translated { outcome: Result<String, String> },
    /// What the lesson replied, if anything.
    LessonReplied { reply: Option<String> },
    /// What the lesson replied to the exercise, if anything.
    ShadowingReplied { reply: Option<String> },
    /// The answer of the conversation.
    Answered { answer: String },
    /// The text was sent.
    ReplySent,
    /// The answer was spoken.
    Spoken { response: SpeechSynthesisResponse },
    /// The spoken answer was sent.
    AudioSent,
    /// Speaking or sending the spoken answer failed.
    SpeechFailed { error: String },
}

/// Whether an event can come in a state.
pub open spec fn fits(state: AudioState, event: AudioEvent) -> bool {
    match event {
        AudioEvent::Downloaded { .. } => state is Download,
        AudioEvent::Translated { .. } => state is Translate,
        AudioEvent::LessonReplied { .. } => state is Lesson,
        AudioEvent::ShadowingReplied { .. } => state is Shadowing,
        AudioEvent::Answered { .. } => state is Converse,
        AudioEvent::ReplySent => state is Reply,
        AudioEvent::Spoken { .. } => state is Speak,
        AudioEvent::AudioSent => state is SendAudio,
        AudioEvent::SpeechFailed { .. } => state is Speak || state is SendAudio,
    }
}

/// The reply to a voice message of no length.
pub open spec fn zero_length_text() -> Seq<char> {
    "我收到了这条语音，但飞书回调里显示时长是 0 秒。这种语音通常无法稳定转写，请重新录一条 1 秒以上、内容更完整的语音。"@
}

/// The reply where what was said could not be written down.
pub open spec fn unheard_text(learning: bool) -> Seq<char> {
    if learning {
        "我收到了这条英语跟读语音，但这次没有成功识别出英文文本。请尽量录制 1 秒以上、语速稍慢一点、环境更安静的语音后再试。"@
    } else {
        "我收到了这条语音，但这次没有成功识别出可用文本。请重新录一条更清晰、稍长一点的语音后再试。"@
    }
}

/// The reply where nothing was said.
pub open spec fn silent_text() -> Seq<char> {
    "我收到了语音消息，但这次没有成功识别出可用文本。"@
}

/// Where the handling of a voice message begins: one of no length is answered at once.
pub open spec fn first_audio_state(event: InboundAudioMessage, state: AudioState) -> bool {
    if event.duration_ms == Some(0u64) {
        state matches AudioState::Reply { text, next } && text@ == zero_length_text() && next is Finish
    } else {
        state is Download
    }
}

/// Begins the handling of a voice message.
pub fn begin_audio(event: &InboundAudioMessage) -> (r: AudioState)
    ensures
        first_audio_state(*event, r),
{
    match event.duration_ms {
        Some(0) => AudioState::Reply {
            text:
                "我收到了这条语音，但飞书回调里显示时长是 0 秒。这种语音通常无法稳定转写，请重新录一条 1 秒以上、内容更完整的语音。".to_owned(),
            next: AfterReply::Finish,
        },
        _ => AudioState::Download,
    }
}

/// Sound as a data URL.
pub open spec fn data_url(mime_type: Seq<char>, bytes: Seq<u8>) -> Seq<char> {
    "data:"@ + mime_type + ";base64,"@ + encoding::base64_of(bytes, false, true)
}

/// The request by which sound is written down; a lesson is always in English.
pub open spec fn is_translation(
    job: AudioJob,
    mime_type: Seq<char>,
    format: Seq<char>,
    bytes: Seq<u8>,
    learning: bool,
    request: MediaTranslateRequest,
) -> bool {
    &&& text::opt_view(request.source_lang) == if learning {
        Some("en"@)
    } else {
        text::opt_view(job.source_lang)
    }
    &&& request.target_lang@ == if learning {
        "en"@
    } else {
        job.target_lang@
    }
    &&& request.audio_data_url@ == data_url(mime_type, bytes)
    &&& request.audio_format@ == format
    &&& request.include_usage
}

/// Whether a step on the way to an answer leads to a state.
pub open spec fn leads_to(step: ReplyStepView, transcript: Seq<char>, state: AudioState) -> bool {
    match step {
        ReplyStepView::AskLesson => state matches AudioState::Lesson { transcript: t } && t@
            == transcript,
        ReplyStepView::AskShadowing => state matches AudioState::Shadowing { transcript: t } && t@
            == transcript,
        ReplyStepView::Converse => state matches AudioState::Converse { transcript: t } && t@
            == transcript,
        ReplyStepView::Answer(answer) => answers(transcript, answer, state),
    }
}

/// Whether a state answers what was said.
pub open spec fn answers(transcript: Seq<char>, answer: Seq<char>, state: AudioState) -> bool {
    state matches AudioState::Reply { text, next: AfterReply::Speak { transcript: t } } && text@
        == answer && t@ == transcript
}

/// Whether an answer is given aloud too.
pub open spec fn speaks(job: AudioJob, transcript: Seq<char>, answer: Seq<char>) -> bool {
    job.speech_configured && english::deserves_audio(transcript, answer)
}

/// The request by which an answer is spoken.
pub open spec fn is_speech_request(answer: Seq<char>, request: SpeechSynthesisRequest) -> bool {
    &&& request.text@ == english::spoken(answer)
    &&& request.model is None
    &&& request.voice is None
    &&& text::opt_view(request.response_format) == Some("opus"@)
    &&& request.sample_rate == Some(48_000u32)
    &&& request.speed is None
    &&& request.gain is None
    &&& request.stream == Some(false)
}

/// The voice message by which an answer is given aloud.
pub open spec fn is_audio_reply(
    event: InboundAudioMessage,
    response: SpeechSynthesisResponse,
    r: OutboundAudioReply,
) -> bool {
    &&& r.channel == event.channel
    &&& r.reply_to_message_id@ == event.message_id@
    &&& r.session_id@ == event.session_id@
    &&& r.file_name@ == "english-reply."@ + response.response_format@
    &&& r.file_format@ == response.response_format@
    &&& r.content_type@ == response.content_type@
    &&& encoding::base64_of(r.bytes@, false, true) == response.audio_base64@
    &&& audio::duration_of(response.response_format@, r.bytes@) == match r.duration_ms {
        Some(ms) => Some(ms as int),
        None => None,
    }
}

/// The note that is made where an answer could not be given aloud.
pub open spec fn speech_warning(error: Seq<char>) -> Seq<char> {
    "failed to send synthesized english audio reply: "@ + error
}

/// Whether a state follows another when an event comes in.
pub open spec fn follows(
    job: AudioJob,
    state: AudioState,
    event: AudioEvent,
    next: AudioState,
) -> bool {
    match (state, event) {
        (
            AudioState::Download,
            AudioEvent::Downloaded { mime_type, format, bytes, learning },
        ) => {
            next matches AudioState::Translate { request, learning: l } && l == learning
                && is_translation(job, mime_type@, format@, bytes@, learning, request)
        },
        (AudioState::Translate { learning, .. }, AudioEvent::Translated { outcome }) => match outcome {
            Err(error) => next matches AudioState::Reply { text, next: AfterReply::Fail { message } }
                && text@ == unheard_text(learning) && message@
                == "failed to transcribe channel audio: "@ + error@,
            Ok(said) => if text::trimmed(said@).len() == 0 {
                next matches AudioState::Reply { text, next: AfterReply::Finish } && text@
                    == silent_text()
            } else {
                next matches AudioState::Lesson { transcript } && transcript@ == text::trimmed(said@)
            },
        },
        (AudioState::Lesson { transcript }, AudioEvent::LessonReplied { reply }) => leads_to(
            reply::step_after_lesson(true, reply),
            transcript@,
            next,
        ),
        (AudioState::Shadowing { transcript }, AudioEvent::ShadowingReplied { reply }) => leads_to(
            reply::step_after_shadowing(reply),
            transcript@,
            next,
        ),
        (AudioState::Converse { transcript }, AudioEvent::Answered { answer }) => answers(
            transcript@,
            reply::answer_or_excuse(answer@),
            next,
        ),
        (AudioState::Reply { text, next: after }, AudioEvent::ReplySent) => match after {
            AfterReply::Finish => next matches AudioState::Done { warning } && warning is None,
            AfterReply::Fail { message } => next matches AudioState::Failed { message: m } && m@
                == message@,
            AfterReply::Speak { transcript } => if speaks(job, transcript@, text@) {
                next matches AudioState::Speak { speech } && is_speech_request(text@, speech)
            } else {
                next matches AudioState::Done { warning } && warning is None
            },
        },
        (AudioState::Speak { .. }, AudioEvent::Spoken { response }) => {
            ||| next matches AudioState::SendAudio { reply } && is_audio_reply(
                job.event,
                response,
                reply,
            )
            ||| next matches AudioState::Done { warning: Some(w) } && (forall|b: Seq<u8>|
                #[trigger] encoding::base64_of(b, false, true) != response.audio_base64@) && w@
                == speech_warning(
                "invalid synthesized audio base64: "@ + outside::base64_problem(
                    response.audio_base64@,
                ),
            )
        },
        (AudioState::SendAudio { .. }, AudioEvent::AudioSent) => next matches AudioState::Done {
            warning,
        } && warning is None,
        (_, AudioEvent::SpeechFailed { error }) => next matches AudioState::Done {
            warning: Some(w),
        } && w@ == speech_warning(error@),
        _ => false,
    }
}

fn state_of(step: ReplyStep, transcript: String) -> (r: AudioState)
    ensures
        leads_to(step@, transcript@, r),
{
    match step {
        ReplyStep::AskLesson => AudioState::Lesson { transcript },
        ReplyStep::AskShadowing => AudioState::Shadowing { transcript },
        ReplyStep::Converse => AudioState::Converse { transcript },
        ReplyStep::Answer(answer) => AudioState::Reply {
            text: answer,
            next: AfterReply::Speak { transcript },
        },
    }
}

fn translation(
    job: &AudioJob,
    mime_type: &str,
    format: String,
    bytes: &Vec<u8>,
    learning: bool,
) -> (r: MediaTranslateRequest)
    ensures
        is_translation(*job, mime_type@, format@, bytes@, learning, r),
{
    MediaTranslateRequest {
        source_lang: if learning {
            Some("en".to_owned())
        } else {
            text::copy_opt(&job.source_lang)
        },
        target_lang: if learning {
            "en".to_owned()
        } else {
            job.target_lang.clone()
        },
        audio_data_url: text::cat4(
            "data:",
            mime_type,
            ";base64,",
            outside::base64_encode(bytes.as_slice()).as_str(),
        ),
        audio_format: format,
        include_usage: true,
    }
}

fn speech_request(answer: &str) -> (r: SpeechSynthesisRequest)
    ensures
        is_speech_request(answer@, r),
{
    SpeechSynthesisRequest {
        text: english::normalize_text_for_speech(answer),
        model: None,
        voice: None,
        response_format: Some("opus".to_owned()),
        sample_rate: Some(48_000),
        speed: None,
        gain: None,
        stream: Some(false),
    }
}

fn warned(error: &str) -> (r: AudioState)
    ensures
        r matches AudioState::Done { warning: Some(w) } && w@ == speech_warning(error@),
{
    AudioState::Done {
        warning: Some(text::cat("failed to send synthesized english audio reply: ", error)),
    }
}

fn audio_reply(event: &InboundAudioMessage, response: SpeechSynthesisResponse) -> (r: Result<
    OutboundAudioReply,
    String,
>)
    ensures
        match r {
            Ok(reply) => is_audio_reply(*event, response, reply),
            Err(error) => (forall|b: Seq<u8>|
                #[trigger] encoding::base64_of(b, false, true) != response.audio_base64@) && error@
                == "invalid synthesized audio base64: "@ + outside::base64_problem(
                response.audio_base64@,
            ),
        },
{
    match outside::base64_decode(response.audio_base64.as_str()) {
        Ok(bytes) => {
            let duration_ms: Option<u64> = audio::estimate_audio_duration_ms(
                response.response_format.as_str(),
                bytes.as_slice(),
            );
            Ok(OutboundAudioReply {
                channel: event.channel,
                reply_to_message_id: event.message_id.clone(),
                session_id: event.session_id.clone(),
                file_name: text::cat("english-reply.", response.response_format.as_str()),
                file_format: response.response_format,
                content_type: response.content_type,
                bytes,
                duration_ms,
            })
        },
        Err(problem) => Err(text::cat("invalid synthesized audio base64: ", problem.as_str())),
    }
}

/// Takes the handling of a voice message one step further.
pub fn handle_audio_message_event(job: &AudioJob, state: AudioState, event: AudioEvent) -> (next:
    AudioState)
    requires
        fits(state, event),
    ensures
        follows(*job, state, event, next),
{
    match (state, event) {
        (
            AudioState::Download,
            AudioEvent::Downloaded { mime_type, format, bytes, learning },
        ) => AudioState::Translate {
            request: translation(job, mime_type.as_str(), format, &bytes, learning),
            learning,
        },
        (AudioState::Translate { learning, .. }, AudioEvent::Translated { outcome }) => match outcome {
            Err(error) => AudioState::Reply {
                text: if learning {
                    "我收到了这条英语跟读语音，但这次没有成功识别出英文文本。请尽量录制 1 秒以上、语速稍慢一点、环境更安静的语音后再试。".to_owned()
                } else {
                    "我收到了这条语音，但这次没有成功识别出可用文本。请重新录一条更清晰、稍长一点的语音后再试。".to_owned()
                },
                next: AfterReply::Fail {
                    message: text::cat("failed to transcribe channel audio: ", error.as_str()),
                },
            },
            Ok(said) => {
                let transcript = text::trim(said.as_str()).to_owned();
                if transcript.as_str().unicode_len() == 0 {
                    AudioState::Reply {
                        text: "我收到了语音消息，但这次没有成功识别出可用文本。".to_owned(),
                        next: AfterReply::Finish,
                    }
                } else {
                    AudioState::Lesson { transcript }
                }
            },
        },
        (AudioState::Lesson { transcript }, AudioEvent::LessonReplied { reply }) => state_of(
            reply::after_lesson(true, &reply),
            transcript,
        ),
        (AudioState::Shadowing { transcript }, AudioEvent::ShadowingReplied { reply }) => state_of(
            reply::after_shadowing(&reply),
            transcript,
        ),
        (AudioState::Converse { transcript }, AudioEvent::Answered { answer }) => AudioState::Reply {
            text: reply::after_conversation(answer.as_str()),
            next: AfterReply::Speak { transcript },
        },
        (AudioState::Reply { text, next: after }, AudioEvent::ReplySent) => match after {
            AfterReply::Finish => AudioState::Done { warning: None },
            AfterReply::Fail { message } => AudioState::Failed { message },
            AfterReply::Speak { transcript } => {
                if job.speech_configured && english::should_send_english_audio_reply(
                    transcript.as_str(),
                    text.as_str(),
                ) {
                    AudioState::Speak { speech: speech_request(text.as_str()) }
                } else {
                    AudioState::Done { warning: None }
                }
            },
        },
        (AudioState::Speak { .. }, AudioEvent::Spoken { response }) => {
            match audio_reply(&job.event, response) {
                Ok(reply) => AudioState::SendAudio { reply },
                Err(error) => warned(error.as_str()),
            }
        },
        (_, AudioEvent::SpeechFailed { error }) => warned(error.as_str()),
        (_, _) => AudioState::Done { warning: None },
    }
}

/// The text reply that a state asks to be sent.
pub fn pending_reply(job: &AudioJob, state: &AudioState) -> (r: Option<OutboundTextReply>)
    ensures
        match r {
            Some(reply) => {
                &&& state is Reply
                &&& reply.channel == job.event.channel
                &&& reply.reply_to_message_id@ == job.event.message_id@
                &&& reply.session_id@ == job.event.session_id@
                &&& reply.text@ == state->Reply_text@
            },
            None => !(state is Reply),
        },
{
    match state {
        AudioState::Reply { text, .. } => Some(
            OutboundTextReply {
                channel: job.event.channel,
                reply_to_message_id: job.event.message_id.clone(),
                session_id: job.event.session_id.clone(),
                text: text.clone(),
            },
        ),
        _ => None,
    }
}

/// The conversation that a state asks for.
pub fn pending_conversation(job: &AudioJob, state: &AudioState) -> (r: Option<ConversationRequest>)
    ensures
        match r {
            Some(request) => {
                &&& state is Converse
                &&& request.session_id@ == job.event.session_id@
                &&& request.user_id@ == job.event.user_id@
                &&& request.message@ == state->Converse_transcript@
                &&& request.system_prompt is None
                &&& request.max_iterations is None
                &&& request.persist
            },
            None => !(state is Converse),
        },
{
    match state {
        AudioState::Converse { transcript } => Some(
            reply::conversation_request(
                job.event.session_id.as_str(),
                job.event.user_id.as_str(),
                transcript.as_str(),
            ),
        ),
        _ => None,
    }
}

/// How far a state is from the end.
pub open spec fn distance(state: AudioState) -> int {
    match state {
        AudioState::Download => 8,
        AudioState::Translate { .. } => 7,
        AudioState::Lesson { .. } => 6,
        AudioState::Shadowing { .. } => 5,
        AudioState::Converse { .. } => 4,
        AudioState::Reply { .. } => 3,
        AudioState::Speak { .. } => 2,
        AudioState::SendAudio { .. } => 1,
        AudioState::Failed { .. } => 0,
        AudioState::Done { .. } => 0,
    }
}

/// Whether a text reply was sent on the way to a state.
pub open spec fn replied(state: AudioState) -> bool {
    state is Speak || state is SendAudio || state is Failed || state is Done
}

/// Handling a voice message always comes to an end, and by then exactly one text reply was sent:
/// the step by which a reply is on its way is the only one into the states behind it.
pub proof fn law_one_text_reply(
    job: AudioJob,
    state: AudioState,
    event: AudioEvent,
    next: AudioState,
)
    requires
        fits(state, event),
        follows(job, state, event, next),
    ensures
        0 <= distance(next) < distance(state),
        !replied(state) && replied(next) <==> state is Reply,
        replied(state) ==> replied(next),
        distance(next) == 0 ==> replied(next),
{
}

/// An answer is given aloud only where speech is configured, and both what was said and the answer
/// pass for English.
pub proof fn law_only_english_is_spoken(
    job: AudioJob,
    state: AudioState,
    event: AudioEvent,
    next: AudioState,
)
    requires
        fits(state, event),
        follows(job, state, event, next),
        next is Speak,
    ensures
        job.speech_configured,
        state matches AudioState::Reply { text, next: AfterReply::Speak { transcript } }
            && english::is_english(transcript@) && english::is_english(english::spoken(text@)),
        english::is_english(next->speech.text@),
{
}

/// What goes out as a voice message is what the speech service sent, byte for byte.
pub proof fn law_spoken_bytes_survive(
    event: InboundAudioMessage,
    response: SpeechSynthesisResponse,
    r: OutboundAudioReply,
    sent: Seq<u8>,
)
    requires
        response.audio_base64@ == encoding::base64_of(sent, false, true),
        is_audio_reply(event, response, r),
    ensures
        r.bytes@ == sent,
{
    encoding::law_base64_is_reversible(r.bytes@, sent, false, true);
}

/// A spoken answer is given up only where the speech service sent what is no Base64.
pub proof fn law_spoken_answer_goes_out(
    job: AudioJob,
    state: AudioState,
    response: SpeechSynthesisResponse,
    next: AudioState,
    sent: Seq<u8>,
)
    requires
        state is Speak,
        follows(job, state, AudioEvent::Spoken { response }, next),
        response.audio_base64@ == encoding::base64_of(sent, false, true),
    ensures
        next matches AudioState::SendAudio { reply } && reply.bytes@ == sent,
{
    if let AudioState::SendAudio { reply } = next {
        law_spoken_bytes_survive(job.event, response, reply, sent);
    }
}

} // verus!
