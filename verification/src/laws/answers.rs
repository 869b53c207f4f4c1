//! What holds of answers: where they come from, and which of them are spoken.

use vstd::prelude::*;
use vstd::string::*;

use crate::capability::ConversationRequest;
use crate::channel::english;
use crate::channel::reply;
use crate::channel::reply::{ReplyEvent, ReplyStep};
use crate::text;

verus! {

/// A letter of the basic Latin alphabet, small or capital.
pub open spec fn is_letter(c: char) -> bool {
    ('a' <= c && c <= 'z') || ('A' <= c && c <= 'Z')
}

/// A common Chinese character.
pub open spec fn is_chinese(c: char) -> bool {
    '\u{4e00}' <= c && c <= '\u{9fff}'
}

/// The places at which a run of letters begins.
pub open spec fn word_starts(s: Seq<char>) -> Set<int> {
    Set::new(|i: int| 0 <= i < s.len() && is_letter(s[i]) && (i == 0 || !is_letter(s[i - 1])))
}

proof fn lemma_counts(s: Seq<char>)
    ensures
        english::latin_count(s) == s.filter(|c: char| is_letter(c)).len(),
        english::cjk_count(s) == s.filter(|c: char| is_chinese(c)).len(),
        word_starts(s).finite(),
        english::word_count(s) == word_starts(s).len(),
    decreases s.len(),
{
    reveal(Seq::filter);
    if s.len() == 0 {
        assert(word_starts(s) =~= Set::empty());
    } else {
        let t = s.drop_last();
        lemma_counts(t);
        let n = s.len() - 1;
        if english::word_begins(s, n) {
            assert(word_starts(s) =~= word_starts(t).insert(n)) by {
                assert forall|i: int| word_starts(s).contains(i) == word_starts(t).insert(
                    n,
                ).contains(i) by {
                    if 0 <= i < n {
                        assert(t[i] == s[i]);
                        if i > 0 {
                            assert(t[i - 1] == s[i - 1]);
                        }
                    }
                }
            }
            assert(!word_starts(t).contains(n));
        } else {
            assert(word_starts(s) =~= word_starts(t)) by {
                assert forall|i: int| word_starts(s).contains(i) == word_starts(t).contains(i) by {
                    if 0 <= i < n {
                        assert(t[i] == s[i]);
                        if i > 0 {
                            assert(t[i - 1] == s[i - 1]);
                        }
                    }
                }
            }
        }
    }
}

/// A text passes for English exactly where it has at least twelve letters in at least three runs, and
/// more than twice as many letters as Chinese characters.
pub proof fn law_english_is_counted(input: &str, r: bool)
    requires
        call_ensures(english::looks_like_english_text, (input,), r),
    ensures
        r <==> {
            let letters = input@.filter(|c: char| is_letter(c)).len();
            let chinese = input@.filter(|c: char| is_chinese(c)).len();
            &&& letters >= 12
            &&& word_starts(input@).len() >= 3
            &&& letters > 2 * chinese
        },
{
    lemma_counts(input@);
}

/// A text is spoken without marks of emphasis, its words separated by single spaces, and otherwise
/// word for word.
pub proof fn law_words_are_spoken(
    input: &str,
    r: String,
    crlf: &str,
    lf: &str,
    stars: &str,
    bars: &str,
    nothing: &str,
    unix: String,
    unix_s: &str,
    bold: String,
    bold_s: &str,
    plain: String,
    chars: &Vec<char>,
    words: Vec<Vec<char>>,
    space: &Vec<char>,
    line: Vec<char>,
)
    requires
        call_ensures(english::normalize_text_for_speech, (input,), r),
        crlf@ == seq!['\r', '\n'],
        lf@ == seq!['\n'],
        stars@ == seq!['*', '*'],
        bars@ == seq!['_', '_'],
        nothing@ == Seq::<char>::empty(),
        call_ensures(text::replace, (input, crlf, lf), unix),
        unix_s@ == unix@,
        call_ensures(text::replace, (unix_s, stars, nothing), bold),
        bold_s@ == bold@,
        call_ensures(text::replace, (bold_s, bars, nothing), plain),
        chars@ == plain@,
        call_ensures(text::split_words, (chars,), words),
        space@ == seq![' '],
        call_ensures(text::join, (&words, space), line),
    ensures
        r@ == line@,
{
    reveal_strlit("\r\n");
    reveal_strlit("\n");
    reveal_strlit("**");
    reveal_strlit("__");
    reveal_strlit("");
    reveal_strlit(" ");
    assert("\r\n"@ =~= seq!['\r', '\n']);
    assert("\n"@ =~= seq!['\n']);
    assert("**"@ =~= seq!['*', '*']);
    assert("__"@ =~= seq!['_', '_']);
    assert(""@ =~= Seq::<char>::empty());
    assert(" "@ =~= seq![' ']);
}

/// An answer is spoken exactly where both what was said and the answer, as it would be spoken, pass
/// for English.
pub proof fn law_english_is_answered_aloud(
    transcript: &str,
    answer: &str,
    r: bool,
    said: bool,
    normal: String,
    normal_s: &str,
    answered: bool,
)
    requires
        call_ensures(english::should_send_english_audio_reply, (transcript, answer), r),
        call_ensures(english::looks_like_english_text, (transcript,), said),
        call_ensures(english::normalize_text_for_speech, (answer,), normal),
        normal_s@ == normal@,
        call_ensures(english::looks_like_english_text, (normal_s,), answered),
    ensures
        r <==> said && answered,
{
}

/// A text message is offered to the lesson first: what the lesson replies is the answer, trimmed;
/// only where it replies nothing a conversation is held, and what that gives is the answer.
pub proof fn law_text_is_answered(step: &ReplyStep, event: &ReplyEvent, r: ReplyStep)
    requires
        call_ensures(reply::build_text_reply, (step, event), r),
    ensures
        *event matches ReplyEvent::Lesson(Some(s)) ==> if text::is_blank(s@) {
            r is Converse
        } else {
            r matches ReplyStep::Answer(a) && a@ == text::trimmed(s@)
        },
        *event matches ReplyEvent::Lesson(None) ==> r is Converse,
        *event matches ReplyEvent::Answered(s) ==> (r matches ReplyStep::Answer(a) && a@
            == if text::is_blank(s@) {
            "我暂时还没有合适的回复，请稍后再试。"@
        } else {
            s@
        }),
{
    lemma_lesson_replies(*event);
}

/// A spoken message is offered to the lesson first, then as a shadowing exercise; only where neither
/// replies a conversation is held.
pub proof fn law_speech_is_answered(step: &ReplyStep, event: &ReplyEvent, r: ReplyStep)
    requires
        call_ensures(reply::build_audio_reply, (step, event), r),
    ensures
        *event matches ReplyEvent::Lesson(Some(s)) ==> if text::is_blank(s@) {
            r is AskShadowing
        } else {
            r matches ReplyStep::Answer(a) && a@ == text::trimmed(s@)
        },
        *event matches ReplyEvent::Lesson(None) ==> r is AskShadowing,
        *event matches ReplyEvent::Shadowing(Some(s)) ==> if text::is_blank(s@) {
            r is Converse
        } else {
            r matches ReplyStep::Answer(a) && a@ == text::trimmed(s@)
        },
        *event matches ReplyEvent::Shadowing(None) ==> r is Converse,
        *event matches ReplyEvent::Answered(s) ==> (r matches ReplyStep::Answer(a) && a@
            == if text::is_blank(s@) {
            "我暂时还没有合适的回复，请稍后再试。"@
        } else {
            s@
        }),
{
    lemma_lesson_replies(*event);
}

proof fn lemma_lesson_replies(event: ReplyEvent)
    ensures
        event matches ReplyEvent::Lesson(Some(s)) ==> (text::trimmed(s@).len() == 0
            <==> text::is_blank(s@)),
        event matches ReplyEvent::Shadowing(Some(s)) ==> (text::trimmed(s@).len() == 0
            <==> text::is_blank(s@)),
{
    match event {
        ReplyEvent::Lesson(Some(s)) => text::lemma_trimmed_empty(s@),
        ReplyEvent::Shadowing(Some(s)) => text::lemma_trimmed_empty(s@),
        _ => {},
    }
}

/// A conversation is held with what the user said, in the user's session, and is kept there.
pub proof fn law_conversation_is_with_the_user(
    session_id: &str,
    user_id: &str,
    message: &str,
    r: ConversationRequest,
)
    requires
        call_ensures(reply::conversation_request, (session_id, user_id, message), r),
    ensures
        r.session_id@ == session_id@,
        r.user_id@ == user_id@,
        r.message@ == message@,
        r.system_prompt is None,
        r.max_iterations is None,
        r.persist,
{
}

} // verus!
