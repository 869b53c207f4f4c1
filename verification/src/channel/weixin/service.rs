//! How a message that came in through Weixin is handled.

use vstd::prelude::*;
use vstd::string::*;

use crate::capability::speech::{SpeechSynthesisRequest, SpeechSynthesisResponse};
use crate::channel::english;
use crate::channel::reply;
use crate::channel::reply::{ReplyEvent, ReplyStep, ReplyStepView};
use crate::channel::weixin::api::WeixinApiClient;
use crate::channel::weixin::login;
use crate::channel::weixin::login::{LoginStart, LoginStep, LoginTable};
use crate::channel::weixin::store;
use crate::channel::weixin::store::{NamedText, TokenTable, WeixinStore};
use crate::channel::weixin::supervisor;
use crate::channel::weixin::types::{
    WeixinAccountRecord, WeixinAccountRuntimeState, WeixinAccountSummary, WeixinLoginStartResult,
    WeixinLoginWaitResult, WeixinMessage, WeixinMessageItem, WeixinQrCodeResponse,
    WeixinQrStatusResponse,
};
use crate::channel::{ChannelKind, InboundTextMessage};
use crate::config::channel::WeixinChannelConfig;
use crate::config::env;
use crate::encoding;
use crate::number;
use crate::outside;
use crate::text;

verus! {

/// Items of text.
pub const ITEM_TYPE_TEXT: u8 = 1;

/// Items of speech.
pub const ITEM_TYPE_VOICE: u8 = 3;

/// The sample rate at which answers are spoken.
pub const SPEECH_SAMPLE_RATE: u32 = 32_000;

/// What an item says, trimmed, where it is text or speech and says more than white space.
pub open spec fn item_text(item: WeixinMessageItem) -> Option<Seq<char>> {
    if item.item_type == ITEM_TYPE_TEXT {
        match item.text_item {
            Some(t) => env::filled(text::opt_view(t.text)),
            None => None,
        }
    } else if item.item_type == ITEM_TYPE_VOICE {
        match item.voice_item {
            Some(v) => env::filled(text::opt_view(v.text)),
            None => None,
        }
    } else {
        None
    }
}

/// What the first item says that says anything.
pub open spec fn first_text(items: Seq<WeixinMessageItem>) -> Option<Seq<char>>
    decreases items.len(),
{
    if items.len() == 0 {
        None
    } else if item_text(items[0]) is Some {
        item_text(items[0])
    } else {
        first_text(items.skip(1))
    }
}

fn filled(o: &Option<String>) -> (r: Option<String>)
    ensures
        text::opt_view(r) == env::filled(text::opt_view(*o)),
{
    match o {
        Some(s) => {
            let t = text::trim(s.as_str());
            if t.unicode_len() == 0 {
                None
            } else {
                Some(t.to_owned())
            }
        },
        None => None,
    }
}

fn text_of_item(item: &WeixinMessageItem) -> (r: Option<String>)
    ensures
        text::opt_view(r) == item_text(*item),
{
    if item.item_type == ITEM_TYPE_TEXT {
        match &item.text_item {
            Some(t) => filled(&t.text),
            None => None,
        }
    } else if item.item_type == ITEM_TYPE_VOICE {
        match &item.voice_item {
            Some(v) => filled(&v.text),
            None => None,
        }
    } else {
        None
    }
}

/// What a message says.
pub fn extract_message_text(message: &WeixinMessage) -> (r: Option<String>)
    ensures
        text::opt_view(r) == first_text(message.item_list@),
{
    let ghost all = message.item_list@;
    let mut i: usize = 0;
    assert(all.skip(0) =~= all);
    while i < message.item_list.len()
        invariant
            i <= message.item_list@.len(),
            all == message.item_list@,
            first_text(all) == first_text(all.skip(i as int)),
        decreases message.item_list@.len() - i,
    {
        assert(all.skip(i as int)[0] == all[i as int]);
        assert(all.skip(i as int).skip(1) =~= all.skip(i + 1));
        let said = text_of_item(&message.item_list[i]);
        if said.is_some() {
            return said;
        }
        i = i + 1;
    }
    None
}

/// Whether some of a message was spoken.
pub open spec fn has_voice(items: Seq<WeixinMessageItem>) -> bool {
    exists|i: int| 0 <= i < items.len() && (#[trigger] items[i]).item_type == ITEM_TYPE_VOICE
}

/// Whether some of a message was spoken.
pub fn message_contains_voice_item(message: &WeixinMessage) -> (r: bool)
    ensures
        r == has_voice(message.item_list@),
{
    let mut i: usize = 0;
    while i < message.item_list.len()
        invariant
            i <= message.item_list@.len(),
            forall|j: int|
                0 <= j < i ==> (#[trigger] message.item_list@[j]).item_type != ITEM_TYPE_VOICE,
        decreases message.item_list@.len() - i,
    {
        if message.item_list[i].item_type == ITEM_TYPE_VOICE {
            return true;
        }
        i = i + 1;
    }
    false
}

/// A message that is worth an answer.
#[derive(Debug)]
pub struct Incoming {
    pub inbound: InboundTextMessage,
    pub spoken: bool,
    /// A context token to be remembered for the sender.
    pub new_token: Option<String>,
}

/// Who sent a message, where that is told.
pub open spec fn sender_of(message: WeixinMessage) -> Option<Seq<char>> {
    match message.from_user_id {
        Some(id) => if text::is_blank(id@) {
            None
        } else {
            Some(id@)
        },
        None => None,
    }
}

/// The context token that came with a message, where it is more than white space.
pub open spec fn token_in(message: WeixinMessage) -> Option<Seq<char>> {
    match message.context_token {
        Some(t) => if text::is_blank(t@) {
            None
        } else {
            Some(t@)
        },
        None => None,
    }
}

/// The identifier of a message; one without gets it from a UUID.
pub open spec fn message_id_of(message: WeixinMessage, uuid: Seq<u8>) -> Seq<char> {
    match message.message_id {
        Some(n) => number::decimal(n as nat),
        None => encoding::uuid_text(uuid),
    }
}

/// The session of a user of an account.
pub open spec fn session_of(account_id: Seq<char>, user_id: Seq<char>) -> Seq<char> {
    "weixin:"@ + account_id + ":"@ + user_id
}

/// Whether a message is worth an answer: it has a sender and says something.
pub open spec fn is_worthy(message: WeixinMessage) -> bool {
    sender_of(message) is Some && first_text(message.item_list@) is Some
}

/// Whether a message was read as it is.
pub open spec fn is_reading(
    account_id: Seq<char>,
    message: WeixinMessage,
    uuid: Seq<u8>,
    r: Incoming,
) -> bool {
    let sender = sender_of(message)->Some_0;
    &&& r.inbound.channel == ChannelKind::Weixin
    &&& r.inbound.event_id is None
    &&& r.inbound.message_id@ == message_id_of(message, uuid)
    &&& r.inbound.chat_id is None
    &&& text::opt_view(r.inbound.chat_type) == Some("direct"@)
    &&& r.inbound.user_id@ == sender
    &&& r.inbound.session_id@ == session_of(account_id, sender)
    &&& Some(r.inbound.text@) == first_text(message.item_list@)
    &&& r.spoken == has_voice(message.item_list@)
    &&& text::opt_view(r.new_token) == token_in(message)
}

/// Reads a message, under an identifier made from a UUID where it has none.
pub fn read_incoming_with(account_id: &str, message: &WeixinMessage, uuid: &[u8; 16]) -> (r: Option<
    Incoming,
>)
    ensures
        match r {
            Some(incoming) => is_worthy(*message) && is_reading(
                account_id@,
                *message,
                uuid@,
                incoming,
            ),
            None => !is_worthy(*message),
        },
{
    let sender = match &message.from_user_id {
        Some(id) => if text::blank(id.as_str()) {
            return None;
        } else {
            id.clone()
        },
        None => return None,
    };
    let said = match extract_message_text(message) {
        Some(s) => s,
        None => return None,
    };
    let new_token = match &message.context_token {
        Some(t) => if text::blank(t.as_str()) {
            None
        } else {
            Some(t.clone())
        },
        None => None,
    };
    let message_id = match message.message_id {
        Some(n) => number::decimal_text(n),
        None => outside::uuid_to_text(uuid),
    };
    Some(
        Incoming {
            inbound: InboundTextMessage {
                channel: ChannelKind::Weixin,
                event_id: None,
                message_id,
                chat_id: None,
                chat_type: Some("direct".to_owned()),
                session_id: text::cat4("weixin:", account_id, ":", sender.as_str()),
                user_id: sender,
                text: said,
            },
            spoken: message_contains_voice_item(message),
            new_token,
        },
    )
}

/// Reads a message, under a fresh identifier where it has none.
pub fn read_incoming(account_id: &str, message: &WeixinMessage) -> (r: Option<Incoming>)
    ensures
        match r {
            Some(incoming) => is_worthy(*message) && exists|uuid: Seq<u8>|
                encoding::is_uuid_v4(uuid) && #[trigger] is_reading(
                    account_id@,
                    *message,
                    uuid,
                    incoming,
                ),
            None => !is_worthy(*message),
        },
{
    let uuid = outside::new_uuid();
    read_incoming_with(account_id, message, &uuid)
}

/// The context token that goes with an answer: the one that came with the message, else the one
/// that is remembered.
pub open spec fn token_for(
    message: WeixinMessage,
    table: TokenTable,
    account_id: Seq<char>,
    user_id: Seq<char>,
) -> Option<Seq<char>> {
    match message.context_token {
        Some(t) => Some(t@),
        None => table.of(account_id, user_id),
    }
}

/// Finds the context token that goes with an answer.
pub fn reply_token(
    message: &WeixinMessage,
    table: &TokenTable,
    account_id: &str,
    user_id: &str,
) -> (r: Option<String>)
    ensures
        text::opt_view(r) == token_for(*message, *table, account_id@, user_id@),
{
    match &message.context_token {
        Some(t) => Some(t.clone()),
        None => table.get_context_token(account_id, user_id),
    }
}

/// How far the handling of a message has come.
#[derive(Debug)]
pub enum IncomingState {
    /// The answer is looked for.
    Finding { step: ReplyStep },
    /// The answer is to be sent.
    SendText { answer: String },
    /// The answer is to be spoken, into a file of the given name.
    Speak { speech: SpeechSynthesisRequest, file_name: String },
    /// The spoken answer is to be uploaded.
    Upload { bytes: Vec<u8>, file_name: String },
    /// All is done; something may have gone wrong that the user need not know.
    Done { warning: Option<String> },
}

/// What comes in while a message is handled.
#[derive(Debug)]
pub enum IncomingEvent {
    /// Something came in that was needed to find the answer.
    Found(ReplyEvent),
    /// The answer was sent at a time; whether answers can be spoken is told too.
    TextSent { speech_configured: bool, now_ms: u64 },
    /// The answer was spoken.
    Spoken(SpeechSynthesisResponse),
    /// The spoken answer was uploaded and sent.
    FileSent,
    /// Speaking, uploading or sending the spoken answer failed.
    SpeechFailed { error: String },
}

/// Where the handling of a message begins.
pub fn begin_incoming() -> (r: IncomingState)
    ensures
        r matches IncomingState::Finding { step } && step is AskLesson,
{
    IncomingState::Finding { step: ReplyStep::AskLesson }
}

/// Whether an event can come in a state.
pub open spec fn fits(spoken: bool, state: IncomingState, event: IncomingEvent) -> bool {
    match event {
        IncomingEvent::Found(e) => {
            &&& state is Finding
            &&& reply::expected(state->step@, e)
            &&& !spoken ==> !(state->step is AskShadowing)
        },
        IncomingEvent::TextSent { .. } => state is SendText,
        IncomingEvent::Spoken(_) => state is Speak,
        IncomingEvent::FileSent => state is Upload,
        IncomingEvent::SpeechFailed { .. } => state is Speak || state is Upload,
    }
}

/// Whether a state is the one that a step on the way to an answer leads to.
pub open spec fn leads_to(step: ReplyStepView, next: IncomingState) -> bool {
    match step {
        ReplyStepView::Answer(s) => next matches IncomingState::SendText { answer } && answer@ == s,
        _ => next matches IncomingState::Finding { step: st } && st@ == step,
    }
}

/// Whether an answer is given as a sound file too.
pub open spec fn speaks(incoming: Incoming, answer: Seq<char>, speech_configured: bool) -> bool {
    incoming.spoken && speech_configured && english::deserves_audio(incoming.inbound.text@, answer)
}

/// The request by which an answer is spoken.
pub open spec fn is_speech_request(answer: Seq<char>, request: SpeechSynthesisRequest) -> bool {
    &&& request.text@ == english::spoken(answer)
    &&& request.model is None
    &&& request.voice is None
    &&& text::opt_view(request.response_format) == Some("wav"@)
    &&& request.sample_rate == Some(SPEECH_SAMPLE_RATE)
    &&& request.speed is None
    &&& request.gain is None
    &&& request.stream == Some(false)
}

/// The name of the file of an answer that was spoken at a time.
pub open spec fn speech_file_name(now_ms: nat) -> Seq<char> {
    "english-reply-"@ + number::decimal(now_ms) + ".wav"@
}

/// The note that is made where an answer could not be given as a sound file.
pub open spec fn speech_warning(error: Seq<char>) -> Seq<char> {
    "failed to send synthesized weixin file reply: "@ + error
}

/// Whether a state follows another when an event comes in.
pub open spec fn follows(
    incoming: Incoming,
    state: IncomingState,
    event: IncomingEvent,
    next: IncomingState,
) -> bool {
    match (state, event) {
        (IncomingState::Finding { .. }, IncomingEvent::Found(e)) => leads_to(
            reply::next_step(incoming.spoken, e),
            next,
        ),
        (
            IncomingState::SendText { answer },
            IncomingEvent::TextSent { speech_configured, now_ms },
        ) => if speaks(incoming, answer@, speech_configured) {
            next matches IncomingState::Speak { speech, file_name } && is_speech_request(
                answer@,
                speech,
            ) && file_name@ == speech_file_name(now_ms as nat)
        } else {
            next matches IncomingState::Done { warning } && warning is None
        },
        (IncomingState::Speak { file_name, .. }, IncomingEvent::Spoken(response)) => {
            ||| next matches IncomingState::Upload { bytes, file_name: name } && name@ == file_name@
                && encoding::base64_of(bytes@, false, true) == response.audio_base64@
            ||| next matches IncomingState::Done { warning: Some(w) } && (forall|b: Seq<u8>|
                #[trigger] encoding::base64_of(b, false, true) != response.audio_base64@) && w@
                == speech_warning(
                "invalid synthesized audio base64: "@ + outside::base64_problem(
                    response.audio_base64@,
                ),
            )
        },
        (IncomingState::Upload { .. }, IncomingEvent::FileSent) => next matches IncomingState::Done {
            warning,
        } && warning is None,
        (_, IncomingEvent::SpeechFailed { error }) => next matches IncomingState::Done {
            warning: Some(w),
        } && w@ == speech_warning(error@),
        _ => false,
    }
}

fn warned(error: &str) -> (r: IncomingState)
    ensures
        r matches IncomingState::Done { warning: Some(w) } && w@ == speech_warning(error@),
{
    IncomingState::Done {
        warning: Some(text::cat("failed to send synthesized weixin file reply: ", error)),
    }
}

/// Takes the handling of a message one step further.
pub fn handle_incoming_message(
    incoming: &Incoming,
    state: IncomingState,
    event: IncomingEvent,
) -> (next: IncomingState)
    requires
        fits(incoming.spoken, state, event),
    ensures
        follows(*incoming, state, event, next),
        next is Finding && !incoming.spoken ==> !(next->step is AskShadowing),
{
    match (state, event) {
        (IncomingState::Finding { step }, IncomingEvent::Found(e)) => {
            let found = if incoming.spoken {
                reply::build_audio_reply(&step, &e)
            } else {
                reply::build_text_reply(&step, &e)
            };
            match found {
                ReplyStep::Answer(answer) => IncomingState::SendText { answer },
                other => IncomingState::Finding { step: other },
            }
        },
        (
            IncomingState::SendText { answer },
            IncomingEvent::TextSent { speech_configured, now_ms },
        ) => {
            if incoming.spoken && speech_configured && english::should_send_english_audio_reply(
                incoming.inbound.text.as_str(),
                answer.as_str(),
            ) {
                IncomingState::Speak {
                    speech: SpeechSynthesisRequest {
                        text: english::normalize_text_for_speech(answer.as_str()),
                        model: None,
                        voice: None,
                        response_format: Some("wav".to_owned()),
                        sample_rate: Some(SPEECH_SAMPLE_RATE),
                        speed: None,
                        gain: None,
                        stream: Some(false),
                    },
                    file_name: text::cat3(
                        "english-reply-",
                        number::decimal_text(now_ms).as_str(),
                        ".wav",
                    ),
                }
            } else {
                IncomingState::Done { warning: None }
            }
        },
        (IncomingState::Speak { file_name, .. }, IncomingEvent::Spoken(response)) => {
            match outside::base64_decode(response.audio_base64.as_str()) {
                Ok(bytes) => IncomingState::Upload { bytes, file_name },
                Err(problem) => warned(
                    text::cat("invalid synthesized audio base64: ", problem.as_str()).as_str(),
                ),
            }
        },
        (_, IncomingEvent::SpeechFailed { error }) => warned(error.as_str()),
        (_, _) => IncomingState::Done { warning: None },
    }
}

/// An answer is given as a sound file only to a spoken message, where speech is configured, and
/// where both the message and the answer pass for English.
pub proof fn law_only_english_is_spoken(
    incoming: Incoming,
    state: IncomingState,
    event: IncomingEvent,
    next: IncomingState,
)
    requires
        fits(incoming.spoken, state, event),
        follows(incoming, state, event, next),
        next is Speak,
    ensures
        incoming.spoken,
        english::is_english(incoming.inbound.text@),
        english::is_english(next->speech.text@),
{
}

/// The sound file that is uploaded is what the speech service sent, byte for byte.
pub proof fn law_spoken_bytes_survive(
    incoming: Incoming,
    state: IncomingState,
    response: SpeechSynthesisResponse,
    next: IncomingState,
    sent: Seq<u8>,
)
    requires
        state is Speak,
        follows(incoming, state, IncomingEvent::Spoken(response), next),
        response.audio_base64@ == encoding::base64_of(sent, false, true),
    ensures
        next matches IncomingState::Upload { bytes, .. } && bytes@ == sent,
{
    if let IncomingState::Upload { bytes, .. } = next {
        encoding::law_base64_is_reversible(bytes@, sent, false, true);
    }
}

/// How far a state is from the end.
pub open spec fn distance(state: IncomingState) -> int {
    match state {
        IncomingState::Finding { step } => match step {
            ReplyStep::AskLesson => 6,
            ReplyStep::AskShadowing => 5,
            _ => 4,
        },
        IncomingState::SendText { .. } => 3,
        IncomingState::Speak { .. } => 2,
        IncomingState::Upload { .. } => 1,
        IncomingState::Done { .. } => 0,
    }
}

/// Handling a message always comes to an end, and what lies behind the text answer is reached only
/// by sending it.
pub proof fn law_message_is_answered_once(
    incoming: Incoming,
    state: IncomingState,
    event: IncomingEvent,
    next: IncomingState,
)
    requires
        fits(incoming.spoken, state, event),
        follows(incoming, state, event, next),
    ensures
        0 <= distance(next) < distance(state),
        distance(next) < 3 && distance(state) >= 3 <==> state is SendText,
{
}

/// The whole of the channel: how the service is called, what is kept, the logins under way and the
/// context tokens.
#[derive(Debug)]
pub struct WeixinManager {
    pub api: WeixinApiClient,
    pub store: WeixinStore,
    pub logins: LoginTable,
    pub tokens: TokenTable,
}

impl WeixinManager {
    /// The manager's invariant.
    pub open spec fn wf(&self) -> bool {
        self.logins.wf() && self.tokens.wf()
    }

    /// The channel with the given settings, for a client of the given version.
    pub fn new(config: WeixinChannelConfig, version: &str) -> (r: Self)
        ensures
            r.wf(),
            r.api.config == config,
            r.api.channel_version@ == version@,
            r.api.client_version@ == version@,
            r.store.state_dir@ == config.state_dir@,
            forall|id: Seq<char>| #[trigger] r.store.of(id) == store::idle(),
            forall|key: Seq<char>| #[trigger] r.logins.of(key) is None,
            forall|a: Seq<char>, u: Seq<char>| #[trigger] r.tokens.of(a, u) is None,
    {
        let state_dir = config.state_dir.clone();
        WeixinManager {
            api: WeixinApiClient::new(config, version),
            store: WeixinStore::new(state_dir),
            logins: LoginTable::default(),
            tokens: TokenTable::default(),
        }
    }

    /// Whether the channel is enabled.
    pub fn is_enabled(&self) -> (r: bool)
        ensures
            r == self.api.config.enabled,
    {
        self.api.config.enabled
    }

    /// The settings.
    pub fn config(&self) -> (r: &WeixinChannelConfig)
        ensures
            *r == self.api.config,
    {
        &self.api.config
    }

    /// How the service is called.
    pub fn api(&self) -> (r: &WeixinApiClient)
        ensures
            *r == self.api,
    {
        &self.api
    }

    /// Begins a login, under a fresh key where no account is named.
    pub fn start_login(&self, force: bool, account_id: &Option<String>, now_ms: u64) -> (r: Result<
        LoginStart,
        String,
    >)
        requires
            self.wf(),
        ensures
            match r {
                Ok(start) => self.api.config.enabled && exists|uuid: Seq<u8>|
                    encoding::is_uuid_v4(uuid) && login::starts(
                        self.logins,
                        force,
                        #[trigger] login::login_key(*account_id, uuid),
                        now_ms,
                        start,
                    ),
                Err(m) => !self.api.config.enabled && m@ == "WEIXIN_ENABLED is false"@,
            },
    {
        login::start_login(self.api.config.enabled, &self.logins, force, account_id, now_ms)
    }

    /// Puts a new QR code under way and shows it.
    pub fn show_new_qr_code(
        &mut self,
        session_key: &str,
        code: WeixinQrCodeResponse,
        now_ms: u64,
    ) -> (r: WeixinLoginStartResult)
        requires
            old(self).wf(),
        ensures
            final(self).wf(),
            final(self).logins.of(session_key@) matches Some(l) && {
                &&& l.qrcode@ == code.qrcode@
                &&& l.qrcode_url@ == code.qrcode_img_content@
                &&& l.started_at_ms == now_ms
                &&& l.current_api_base_url@ == old(self).api.config.base_url@
            },
            forall|k: Seq<char>|
                k != session_key@ ==> #[trigger] final(self).logins.of(k) == old(self).logins.of(k),
            final(self).api == old(self).api,
            final(self).store == old(self).store,
            final(self).tokens == old(self).tokens,
            login::shows(
                r,
                session_key@,
                code.qrcode_img_content@,
                "使用微信扫描二维码完成连接。"@,
            ),
    {
        let base_url = self.api.config.base_url.clone();
        login::show_new_qr_code(&mut self.logins, session_key, code, base_url.as_str(), now_ms)
    }

    /// Takes in what has become of the QR code of a login that is waited for.
    pub fn wait_login(
        &mut self,
        session_key: &str,
        status: &WeixinQrStatusResponse,
        now_ms: u64,
        deadline_ms: u64,
    ) -> (r: LoginStep)
        requires
            old(self).wf(),
        ensures
            final(self).wf(),
            login::login_step(*status, old(self).api.config.base_url@, now_ms, deadline_ms, r),
            login::login_after(
                old(self).logins.of(session_key@),
                *status,
                final(self).logins.of(session_key@),
            ),
            forall|k: Seq<char>|
                k != session_key@ ==> #[trigger] final(self).logins.of(k) == old(self).logins.of(k),
            final(self).api == old(self).api,
            final(self).store == old(self).store,
            final(self).tokens == old(self).tokens,
    {
        let base_url = self.api.config.base_url.clone();
        login::wait_login(
            &mut self.logins,
            session_key,
            status,
            base_url.as_str(),
            now_ms,
            deadline_ms,
        )
    }

    /// Completes a login once its account and its context tokens were kept and read.
    pub fn complete_login(
        &mut self,
        session_key: &str,
        account: &WeixinAccountRecord,
        tokens: &Vec<NamedText>,
    ) -> (r: WeixinLoginWaitResult)
        requires
            old(self).wf(),
        ensures
            final(self).wf(),
            final(self).logins.of(session_key@) is None,
            forall|k: Seq<char>|
                k != session_key@ ==> #[trigger] final(self).logins.of(k) == old(self).logins.of(k),
            forall|a: Seq<char>, u: Seq<char>| #[trigger]
                final(self).tokens.of(a, u) == if a == account.account_id@ {
                    store::text_under(tokens@, u)
                } else {
                    old(self).tokens.of(a, u)
                },
            final(self).api == old(self).api,
            final(self).store == old(self).store,
            r.connected,
            text::opt_view(r.account_id) == Some(account.account_id@),
            text::opt_view(r.linked_user_id) == text::opt_view(account.linked_user_id),
            r.message@ == "与微信连接成功。"@,
    {
        self.tokens.load_context_tokens(account.account_id.as_str(), tokens);
        login::complete_login(&mut self.logins, session_key, account)
    }

    /// Shows all accounts, the latest saved first.
    pub fn list_accounts(&self, accounts: &Vec<WeixinAccountRecord>) -> (r: Vec<
        WeixinAccountSummary,
    >)
        ensures
            store::sum_up_all(r@, store::by_time(accounts@), self.store),
    {
        self.store.list_accounts(accounts)
    }

    /// Makes an account ready to be started again: its monitor counts as stopped. An account that
    /// is not kept cannot be.
    pub fn restart_account(&mut self, account: Option<WeixinAccountRecord>, account_id: &str) -> (r:
        Result<WeixinAccountRecord, String>)
        requires
            old(self).wf(),
        ensures
            final(self).wf(),
            match r {
                Ok(a) => {
                    &&& account == Some(a)
                    &&& final(self).store.of(account_id@) == (WeixinAccountRuntimeState {
                        running: false,
                        ..old(self).store.of(account_id@)
                    })
                    &&& forall|id: Seq<char>|
                        id != account_id@ ==> #[trigger] final(self).store.of(id) == old(
                            self,
                        ).store.of(id)
                },
                Err(m) => {
                    &&& account is None
                    &&& m@ == "weixin account not found: "@ + account_id@
                    &&& final(self).store == old(self).store
                },
            },
            final(self).store.state_dir == old(self).store.state_dir,
            final(self).api == old(self).api,
            final(self).logins == old(self).logins,
            final(self).tokens == old(self).tokens,
    {
        match account {
            Some(a) => {
                self.store.mark_runtime_stopped(account_id);
                Ok(a)
            },
            None => Err(text::cat("weixin account not found: ", account_id)),
        }
    }

    /// Decides whether the monitor of an account is started again, and why.
    pub fn supervisor_restart_reason(
        &self,
        account_id: &str,
        task_running: bool,
        now_ms: u64,
    ) -> (r: Option<String>)
        requires
            task_running && !supervisor::is_paused(self.store.of(account_id@), now_ms)
                ==> supervisor::stale_after(self.api.config) <= u64::MAX,
        ensures
            text::opt_view(r) == supervisor::restart_reason(
                self.api.config,
                self.store.of(account_id@),
                task_running,
                now_ms,
            ),
    {
        let state = self.store.load_runtime_state(account_id);
        supervisor::supervisor_restart_reason(&self.api.config, &state, task_running, now_ms)
    }
}

/// What the supervisor notes when it restarts a monitor keeps it from doing so again before the gap
/// has passed, as long as the monitor runs.
pub proof fn law_noted_restart_is_respected(
    config: WeixinChannelConfig,
    before: WeixinAccountRuntimeState,
    after: WeixinAccountRuntimeState,
    restarted_at_ms: u64,
    now_ms: u64,
)
    requires
        supervisor::same_but_error(
            after,
            WeixinAccountRuntimeState { last_restart_at_ms: Some(restarted_at_ms), ..before },
        ),
        login::elapsed(now_ms, restarted_at_ms) < supervisor::restart_gap(config),
    ensures
        supervisor::restart_reason(config, after, true, now_ms) is None,
{
}

} // verus!
