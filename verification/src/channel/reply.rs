//! How a message is answered: by the lesson where it takes it up, else by a conversation.

use vstd::prelude::*;
use vstd::string::*;

use crate::capability::ConversationRequest;
use crate::config::env;
use crate::text;

verus! {

/// Where an answer is looked for next.
#[derive(Debug)]
pub enum ReplyStep {
    /// Offer the message to the lesson.
    AskLesson,
    /// Offer the spoken message to the lesson as a shadowing exercise.
    AskShadowing,
    /// Hold a conversation.
    Converse,
    /// Answer with this text.
    Answer(String),
}

/// The contents of such a step.
pub enum ReplyStepView {
    AskLesson,
    AskShadowing,
    Converse,
    Answer(Seq<char>),
}

impl View for ReplyStep {
    type V = ReplyStepView;

    open spec fn view(&self) -> ReplyStepView {
        match *self {
            ReplyStep::AskLesson => ReplyStepView::AskLesson,
            ReplyStep::AskShadowing => ReplyStepView::AskShadowing,
            ReplyStep::Converse => ReplyStepView::Converse,
            ReplyStep::Answer(s) => ReplyStepView::Answer(s@),
        }
    }
}

/// What the user is told where a conversation gave nothing.
pub open spec fn no_answer() -> Seq<char> {
    "我暂时还没有合适的回复，请稍后再试。"@
}

/// A reply of the lesson, trimmed, where it is more than white space.
pub open spec fn lesson_reply(reply: Option<String>) -> Option<Seq<char>> {
    env::filled(text::opt_view(reply))
}

/// What follows a reply of the lesson to a message.
pub open spec fn step_after_lesson(spoken: bool, reply: Option<String>) -> ReplyStepView {
    match lesson_reply(reply) {
        Some(s) => ReplyStepView::Answer(s),
        None => if spoken {
            ReplyStepView::AskShadowing
        } else {
            ReplyStepView::Converse
        },
    }
}

/// What follows a reply of the lesson to a shadowing exercise.
pub open spec fn step_after_shadowing(reply: Option<String>) -> ReplyStepView {
    match lesson_reply(reply) {
        Some(s) => ReplyStepView::Answer(s),
        None => ReplyStepView::Converse,
    }
}

fn filled_reply(reply: &Option<String>) -> (r: Option<String>)
    ensures
        text::opt_view(r) == lesson_reply(*reply),
{
    match reply {
        Some(s) => {
            let t = text::trim(s.as_str());
            if t.unicode_len() == 0 {
                None
            } else {
                Some(t.to_owned())
            }
        },
        None => None,
    }
}

/// Takes in the reply of the lesson to a message.
pub fn after_lesson(spoken: bool, reply: &Option<String>) -> (r: ReplyStep)
    ensures
        r@ == step_after_lesson(spoken, *reply),
{
    match filled_reply(reply) {
        Some(s) => ReplyStep::Answer(s),
        None => if spoken {
            ReplyStep::AskShadowing
        } else {
            ReplyStep::Converse
        },
    }
}

/// Takes in the reply of the lesson to a shadowing exercise.
pub fn after_shadowing(reply: &Option<String>) -> (r: ReplyStep)
    ensures
        r@ == step_after_shadowing(*reply),
{
    match filled_reply(reply) {
        Some(s) => ReplyStep::Answer(s),
        None => ReplyStep::Converse,
    }
}

/// The answer that a conversation gave, or an excuse where it is blank.
pub open spec fn answer_or_excuse(answer: Seq<char>) -> Seq<char> {
    if text::is_blank(answer) {
        no_answer()
    } else {
        answer
    }
}

/// Takes in the answer of a conversation.
pub fn after_conversation(answer: &str) -> (r: String)
    ensures
        r@ == answer_or_excuse(answer@),
{
    if text::blank(answer) {
        "我暂时还没有合适的回复，请稍后再试。".to_owned()
    } else {
        answer.to_owned()
    }
}

/// The conversation by which a message is answered; it is kept in the session.
pub fn conversation_request(session_id: &str, user_id: &str, message: &str) -> (r:
    ConversationRequest)
    ensures
        r.session_id@ == session_id@,
        r.user_id@ == user_id@,
        r.message@ == message@,
        r.system_prompt is None,
        r.max_iterations is None,
        r.persist,
{
    ConversationRequest {
        session_id: session_id.to_owned(),
        user_id: user_id.to_owned(),
        message: message.to_owned(),
        system_prompt: None,
        max_iterations: None,
        persist: true,
    }
}

/// What comes in while an answer is looked for.
#[derive(Debug)]
pub enum ReplyEvent {
    /// What the lesson replied, if anything.
    Lesson(Option<String>),
    /// What the lesson replied to the exercise, if anything.
    Shadowing(Option<String>),
    /// The answer of the conversation.
    Answered(String),
}

/// Whether an event can come at a step.
pub open spec fn expected(step: ReplyStepView, event: ReplyEvent) -> bool {
    match event {
        ReplyEvent::Lesson(_) => step is AskLesson,
        ReplyEvent::Shadowing(_) => step is AskShadowing,
        ReplyEvent::Answered(_) => step is Converse,
    }
}

/// The step that follows an event.
pub open spec fn next_step(spoken: bool, event: ReplyEvent) -> ReplyStepView {
    match event {
        ReplyEvent::Lesson(reply) => step_after_lesson(spoken, reply),
        ReplyEvent::Shadowing(reply) => step_after_shadowing(reply),
        ReplyEvent::Answered(answer) => ReplyStepView::Answer(answer_or_excuse(answer@)),
    }
}

/// Takes the search for an answer to a text message one step further.
pub fn build_text_reply(step: &ReplyStep, event: &ReplyEvent) -> (r: ReplyStep)
    requires
        expected(step@, *event),
        !(step is AskShadowing),
    ensures
        r@ == next_step(false, *event),
        !(r is AskShadowing),
{
    match event {
        ReplyEvent::Lesson(reply) => after_lesson(false, reply),
        ReplyEvent::Shadowing(reply) => after_shadowing(reply),
        ReplyEvent::Answered(answer) => ReplyStep::Answer(after_conversation(answer.as_str())),
    }
}

/// Takes the search for an answer to a spoken message one step further.
pub fn build_audio_reply(step: &ReplyStep, event: &ReplyEvent) -> (r: ReplyStep)
    requires
        expected(step@, *event),
    ensures
        r@ == next_step(true, *event),
{
    match event {
        ReplyEvent::Lesson(reply) => after_lesson(true, reply),
        ReplyEvent::Shadowing(reply) => after_shadowing(reply),
        ReplyEvent::Answered(answer) => ReplyStep::Answer(after_conversation(answer.as_str())),
    }
}

/// The lesson comes first: a reply of it that is more than white space is the answer, trimmed, and
/// no conversation is held; without one the message goes on.
pub proof fn law_lesson_comes_first(spoken: bool, reply: Option<String>)
    ensures
        reply matches Some(s) ==> {
            !text::is_blank(s@) ==> {
                &&& step_after_lesson(spoken, reply) == ReplyStepView::Answer(text::trimmed(s@))
                &&& step_after_shadowing(reply) == ReplyStepView::Answer(text::trimmed(s@))
            }
        },
        reply is None || text::is_blank(reply->Some_0@) ==> !(step_after_lesson(
            spoken,
            reply,
        ) is Answer) && step_after_shadowing(reply) is Converse,
{
    if let Some(s) = reply {
        text::lemma_trimmed_empty(s@);
    }
}

/// Whatever the lesson and the conversation give, the user is answered with more than white space.
pub proof fn law_answer_is_never_blank(
    spoken: bool,
    lesson: Option<String>,
    shadowing: Option<String>,
    answer: Seq<char>,
)
    ensures
        step_after_lesson(spoken, lesson) matches ReplyStepView::Answer(s) ==> !text::is_blank(s),
        step_after_shadowing(shadowing) matches ReplyStepView::Answer(s) ==> !text::is_blank(s),
        !text::is_blank(answer_or_excuse(answer)),
{
    reveal_strlit("我暂时还没有合适的回复，请稍后再试。");
    assert(no_answer()[0] == '我');
    if let Some(s) = lesson {
        text::law_trimming_is_idempotent(s@);
        text::lemma_trimmed_empty(text::trimmed(s@));
    }
    if let Some(s) = shadowing {
        text::law_trimming_is_idempotent(s@);
        text::lemma_trimmed_empty(text::trimmed(s@));
    }
}

} // verus!
