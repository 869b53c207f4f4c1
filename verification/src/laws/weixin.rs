//! What holds of messages that come in through Weixin.

use vstd::prelude::*;
use vstd::string::*;

use crate::capability::speech::SpeechSynthesisResponse;
use crate::channel::english;
use crate::channel::reply;
use crate::channel::reply::{ReplyEvent, ReplyStep};
use crate::channel::weixin::service;
use crate::channel::weixin::service::{Incoming, IncomingEvent, IncomingState, WeixinManager};
use crate::channel::weixin::store;
use crate::channel::weixin::store::TokenTable;
use crate::channel::weixin::types::{
    WeixinAccountRecord, WeixinAccountSummary, WeixinMessage, WeixinMessageItem,
};
use crate::channel::ChannelKind;
use crate::encoding;
use crate::laws::feishu::asks_to_speak;
use crate::number;
use crate::text;

verus! {

/// What an item says: its text, or what was spoken.
pub open spec fn said_by(item: WeixinMessageItem) -> Option<Seq<char>> {
    if item.item_type == 1 && item.text_item is Some {
        text::opt_view(item.text_item->Some_0.text)
    } else if item.item_type == 3 && item.voice_item is Some {
        text::opt_view(item.voice_item->Some_0.text)
    } else {
        None
    }
}

/// Whether an item says more than white space.
pub open spec fn says_something(item: WeixinMessageItem) -> bool {
    said_by(item) matches Some(s) && !text::is_blank(s)
}

proof fn lemma_item(item: WeixinMessageItem)
    ensures
        service::item_text(item) == if says_something(item) {
            Some(text::trimmed(said_by(item)->Some_0))
        } else {
            None
        },
{
    if let Some(s) = said_by(item) {
        text::lemma_trimmed_empty(s);
    }
}

proof fn lemma_first_said(items: Seq<WeixinMessageItem>, k: int)
    requires
        0 <= k <= items.len(),
        forall|i: int| 0 <= i < k ==> !says_something(#[trigger] items[i]),
        k < items.len() ==> says_something(items[k]),
    ensures
        service::first_text(items) == if k < items.len() {
            Some(text::trimmed(said_by(items[k])->Some_0))
        } else {
            None
        },
    decreases items.len(),
{
    if items.len() > 0 {
        lemma_item(items[0]);
        if k > 0 {
            let rest = items.skip(1);
            assert(!says_something(items[0]));
            assert forall|i: int| 0 <= i < k - 1 implies !says_something(#[trigger] rest[i]) by {
                assert(rest[i] == items[i + 1]);
            }
            if k < items.len() {
                assert(rest[k - 1] == items[k]);
            }
            lemma_first_said(rest, k - 1);
        }
    }
}

/// What a message says is what its first item says that says anything, written or spoken, trimmed.
pub proof fn law_first_words_count(message: &WeixinMessage, r: Option<String>, k: int)
    requires
        call_ensures(service::extract_message_text, (message,), r),
        0 <= k <= message.item_list@.len(),
        forall|i: int| 0 <= i < k ==> !says_something(#[trigger] message.item_list@[i]),
        k < message.item_list@.len() ==> says_something(message.item_list@[k]),
    ensures
        k < message.item_list@.len() ==> (r matches Some(s) && s@ == text::trimmed(
            said_by(message.item_list@[k])->Some_0,
        )),
        k == message.item_list@.len() ==> r is None,
{
    lemma_first_said(message.item_list@, k);
}

/// A message was spoken exactly where one of its items is speech.
pub proof fn law_speech_is_recognized(message: &WeixinMessage, r: bool)
    requires
        call_ensures(service::message_contains_voice_item, (message,), r),
    ensures
        r <==> exists|i: int|
            0 <= i < message.item_list@.len() && (#[trigger] message.item_list@[i]).item_type == 3,
{
}

/// A message is taken up exactly where its sender is known and it says something; then it is the
/// sender's, in the session of that sender with that account, word for word.
pub proof fn law_message_is_read_as_it_is(
    account_id: &str,
    message: &WeixinMessage,
    uuid: &[u8; 16],
    r: Option<Incoming>,
    said: Option<String>,
    spoken: bool,
)
    requires
        call_ensures(service::read_incoming_with, (account_id, message, uuid), r),
        call_ensures(service::extract_message_text, (message,), said),
        call_ensures(service::message_contains_voice_item, (message,), spoken),
    ensures
        r is Some <==> (message.from_user_id matches Some(id) && !text::is_blank(id@)) && said
            is Some,
        r matches Some(m) ==> {
            let sender = message.from_user_id->Some_0@;
            &&& m.inbound.channel == ChannelKind::Weixin
            &&& m.inbound.user_id@ == sender
            &&& m.inbound.session_id@ == "weixin:"@ + account_id@ + ":"@ + sender
            &&& m.inbound.text@ == said->Some_0@
            &&& m.spoken == spoken
            &&& message.message_id matches Some(n) ==> m.inbound.message_id@ == number::decimal(
                n as nat,
            )
            &&& message.message_id is None ==> m.inbound.message_id@ == encoding::uuid_text(uuid@)
            &&& m.inbound.chat_type matches Some(c) && c@ == "direct"@
            &&& m.inbound.event_id is None
            &&& m.inbound.chat_id is None
            &&& message.context_token matches Some(t) ==> if text::is_blank(t@) {
                m.new_token is None
            } else {
                m.new_token matches Some(k) && k@ == t@
            }
            &&& message.context_token is None ==> m.new_token is None
        },
{
}

/// No two users share a session as long as account and user names hold no colon; one user has one.
pub proof fn law_sessions_are_apart(
    account_a: Seq<char>,
    user_a: Seq<char>,
    account_b: Seq<char>,
    user_b: Seq<char>,
)
    requires
        !account_a.contains(':'),
        !account_b.contains(':'),
        service::session_of(account_a, user_a) == service::session_of(account_b, user_b),
    ensures
        account_a == account_b,
        user_a == user_b,
{
    reveal_strlit("weixin:");
    reveal_strlit(":");
    let a = service::session_of(account_a, user_a);
    let b = service::session_of(account_b, user_b);
    let n = account_a.len() as int;
    let m = account_b.len() as int;
    assert(a[7 + n] == ':' && b[7 + m] == ':');
    if n < m {
        assert(b[7 + n] == account_b[n]);
        assert(account_b.contains(':'));
    }
    if m < n {
        assert(a[7 + m] == account_a[m]);
        assert(account_a.contains(':'));
    }
    assert(account_a =~= account_b) by {
        assert forall|i: int| 0 <= i < n implies account_a[i] == account_b[i] by {
            assert(a[7 + i] == account_a[i] && b[7 + i] == account_b[i]);
        }
    }
    assert(user_a =~= user_b) by {
        assert(a.len() == b.len());
        assert forall|i: int| 0 <= i < user_a.len() implies user_a[i] == user_b[i] by {
            assert(a[8 + n + i] == user_a[i] && b[8 + n + i] == user_b[i]);
        }
    }
}

/// An answer goes with the context token of the message, else with the one that is remembered for
/// that user of that account.
pub proof fn law_answer_carries_its_token(
    message: &WeixinMessage,
    table: &TokenTable,
    account_id: &str,
    user_id: &str,
    r: Option<String>,
)
    requires
        call_ensures(service::reply_token, (message, table, account_id, user_id), r),
    ensures
        message.context_token matches Some(t) ==> (r matches Some(k) && k@ == t@),
        message.context_token is None ==> text::opt_view(r) == table.of(account_id@, user_id@),
{
}

/// The answer to a message is looked for as on any channel, as speech where it was spoken and as text
/// where it was written; once it is found it is sent.
pub proof fn law_answer_is_found_and_sent(
    incoming: &Incoming,
    step: ReplyStep,
    event: ReplyEvent,
    next: IncomingState,
    by_text: ReplyStep,
    by_speech: ReplyStep,
)
    requires
        call_ensures(
            service::handle_incoming_message,
            (incoming, IncomingState::Finding { step }, IncomingEvent::Found(event)),
            next,
        ),
        call_ensures(reply::build_text_reply, (&step, &event), by_text),
        call_ensures(reply::build_audio_reply, (&step, &event), by_speech),
    ensures
        ({
            let found = if incoming.spoken {
                by_speech
            } else {
                by_text
            };
            match found {
                ReplyStep::Answer(s) => next matches IncomingState::SendText { answer } && answer@
                    == s@,
                ReplyStep::AskLesson => next matches IncomingState::Finding { step: st } && st is
                    AskLesson,
                ReplyStep::AskShadowing => next matches IncomingState::Finding { step: st } && st is
                    AskShadowing,
                ReplyStep::Converse => next matches IncomingState::Finding { step: st } && st is
                    Converse,
            }
        }),
{
}

/// A spoken message is answered with a sound file too, where that is configured and both sides are
/// English; any other is answered with text alone.
pub proof fn law_speech_is_answered_with_sound(
    incoming: &Incoming,
    answer: String,
    speech_configured: bool,
    now_ms: u64,
    next: IncomingState,
    said: &str,
    reply: &str,
    english_both: bool,
    words: String,
)
    requires
        call_ensures(
            service::handle_incoming_message,
            (
                incoming,
                IncomingState::SendText { answer },
                IncomingEvent::TextSent { speech_configured, now_ms },
            ),
            next,
        ),
        said@ == incoming.inbound.text@,
        reply@ == answer@,
        call_ensures(english::should_send_english_audio_reply, (said, reply), english_both),
        call_ensures(english::normalize_text_for_speech, (reply,), words),
    ensures
        incoming.spoken && speech_configured && english_both ==> (next matches IncomingState::Speak {
            speech,
            file_name,
        } && asks_to_speak(speech, words@, "wav"@, 32_000) && file_name@ == "english-reply-"@
            + number::decimal(now_ms as nat) + ".wav"@),
        !(incoming.spoken && speech_configured && english_both) ==> (
        next matches IncomingState::Done { warning } && warning is None),
{
}

/// What the speech service sent is uploaded under the name that was chosen, byte for byte; a failure
/// on the way is only noted.
pub proof fn law_sound_is_uploaded(
    incoming: &Incoming,
    state: IncomingState,
    event: IncomingEvent,
    next: IncomingState,
    sent: Seq<u8>,
)
    requires
        call_ensures(service::handle_incoming_message, (incoming, state, event), next),
    ensures
        state matches IncomingState::Speak { file_name, .. } ==> (
        event matches IncomingEvent::Spoken(response) ==> (response.audio_base64@
            == encoding::base64_of(sent, false, true) ==> (next matches IncomingState::Upload {
            bytes,
            file_name: name,
        } && bytes@ == sent && name@ == file_name@))),
        state is Speak || state is Upload ==> (event matches IncomingEvent::SpeechFailed { error }
            ==> (next matches IncomingState::Done { warning: Some(w) } && w@
            == "failed to send synthesized weixin file reply: "@ + error@)),
        state is Upload && event is FileSent ==> (next matches IncomingState::Done { warning }
            && warning is None),
{
    if state is Speak {
        if let IncomingEvent::Spoken(response) = event {
            if response.audio_base64@ == encoding::base64_of(sent, false, true) {
                if let IncomingState::Upload { bytes, .. } = next {
                    encoding::law_base64_is_reversible(bytes@, sent, false, true);
                }
            }
        }
    }
}

/// The handling of a message begins with the lesson.
pub proof fn law_lesson_is_asked_first(r: IncomingState)
    requires
        call_ensures(service::begin_incoming, (), r),
    ensures
        r matches IncomingState::Finding { step } && step is AskLesson,
{
}

/// An account that is kept can be started again, as it is, and its monitor counts as stopped; one
/// that is not kept cannot, and nothing changes.
pub proof fn law_kept_account_can_be_restarted(
    manager: &mut WeixinManager,
    account: Option<WeixinAccountRecord>,
    account_id: &str,
    r: Result<WeixinAccountRecord, String>,
)
    requires
        call_ensures(WeixinManager::restart_account, (manager, account, account_id), r),
    ensures
        account matches Some(a) ==> r == Ok::<WeixinAccountRecord, String>(a)
            && !final(manager).store.of(account_id@).running,
        account is None ==> (r matches Err(m) && m@ == "weixin account not found: "@ + account_id@)
            && final(manager).store == old(manager).store,
        forall|id: Seq<char>|
            id != account_id@ ==> #[trigger] final(manager).store.of(id) == old(manager).store.of(
                id,
            ),
        final(manager).api == old(manager).api,
        final(manager).logins == old(manager).logins,
        final(manager).tokens == old(manager).tokens,
{
}

/// A message that is read under a fresh identifier is read like any other.
pub proof fn law_message_is_read_afresh(
    account_id: &str,
    message: &WeixinMessage,
    r: Option<Incoming>,
    said: Option<String>,
    spoken: bool,
)
    requires
        call_ensures(service::read_incoming, (account_id, message), r),
        call_ensures(service::extract_message_text, (message,), said),
        call_ensures(service::message_contains_voice_item, (message,), spoken),
    ensures
        r is Some <==> (message.from_user_id matches Some(id) && !text::is_blank(id@)) && said
            is Some,
        r matches Some(m) ==> {
            let sender = message.from_user_id->Some_0@;
            &&& m.inbound.user_id@ == sender
            &&& m.inbound.session_id@ == "weixin:"@ + account_id@ + ":"@ + sender
            &&& m.inbound.text@ == said->Some_0@
            &&& m.spoken == spoken
            &&& message.message_id matches Some(n) ==> m.inbound.message_id@ == number::decimal(
                n as nat,
            )
        },
{
}

/// The manager shows the accounts that it is given with what it has noted.
pub proof fn law_manager_lists_its_accounts(
    manager: &WeixinManager,
    accounts: &Vec<WeixinAccountRecord>,
    a: Vec<WeixinAccountSummary>,
)
    requires
        call_ensures(WeixinManager::list_accounts, (manager, accounts), a),
    ensures
        store::sum_up_all(a@, store::by_time(accounts@), manager.store),
        a@.len() == accounts@.len(),
{
    store::law_accounts_are_sorted(accounts@);
}

} // verus!
