//! What holds of one turn of a conversation.

use vstd::prelude::*;
use vstd::string::*;

use crate::encoding;
use crate::engine::content;
use crate::engine::content::{Content, Part};
use crate::engine::plan;
use crate::engine::plan::{ActionCandidate, PlannedAction, SelectedAction};
use crate::engine::stream;
use crate::engine::stream::LlmReply;
use crate::engine::turn;
use crate::engine::turn::{ChatTurnResponse, ToolCallTrace, Turn, TurnStep};
use crate::engine::util;
use crate::engine::{ChatTurnRequest, ToolCallEngine};
use crate::laws::planning::call_can_be_made;
use crate::number;
use crate::session_store;
use crate::session_store::SessionStore;
use crate::text;
use crate::tools;
use crate::tools::ToolExecutionRequest;

verus! {

/// Whether a message is the answer of a tool to one call, with that response.
pub open spec fn is_tool_answer(
    m: Content,
    name: Seq<char>,
    id: Seq<char>,
    response: Seq<char>,
) -> bool {
    &&& m.role@ == "tool"@
    &&& m.parts@.len() == 1
    &&& m.parts@[0] matches Part::FunctionResponse { name: n, response: r, id: i } && {
        &&& n@ == name
        &&& r@ == response
        &&& i matches Some(given) && given@ == id
    }
}

/// Whether a message is the model's request for one call.
pub open spec fn is_call_request(
    m: Content,
    name: Seq<char>,
    id: Seq<char>,
    args: Seq<char>,
) -> bool {
    &&& m.role@ == "model"@
    &&& m.parts@.len() == 1
    &&& m.parts@[0] matches Part::FunctionCall { name: n, args: a, id: i } && {
        &&& n@ == name
        &&& a@ == args
        &&& i matches Some(given) && given@ == id
    }
}

/// Whether a message is one text of one speaker.
pub open spec fn is_text(m: Content, role: Seq<char>, said: Seq<char>) -> bool {
    &&& m.role@ == role
    &&& m.parts@.len() == 1
    &&& m.parts@[0] matches Part::Text { text } && text@ == said
}

/// Whether one list of messages goes on where another ends.
pub open spec fn goes_on(before: Seq<Content>, after: Seq<Content>) -> bool {
    &&& before.len() <= after.len()
    &&& forall|i: int| 0 <= i < before.len() ==> (#[trigger] after[i])@ == before[i]@
}

proof fn lemma_message_at(ms: Seq<Content>, i: int)
    requires
        0 <= i < ms.len(),
    ensures
        content::contents_view(ms)[i] == ms[i]@,
        ms[i]@.parts.len() == ms[i].parts@.len(),
        ms[i].parts@.len() > 0 ==> ms[i]@.parts[0] == ms[i].parts@[0]@,
{
}

proof fn lemma_goes_on(before: Seq<Content>, after: Seq<Content>)
    requires
        before.len() <= after.len(),
        content::contents_view(after).take(before.len() as int) == content::contents_view(before),
    ensures
        goes_on(before, after),
{
    let a = content::contents_view(after);
    let b = content::contents_view(before);
    assert forall|i: int| 0 <= i < before.len() implies (#[trigger] after[i])@ == before[i]@ by {
        assert(a.take(before.len() as int)[i] == a[i]);
        assert(b[i] == before[i]@);
    }
}

/// The model sees what the tool gave: after the outcome of a call the next message of the transcript
/// and of the turn is the tool's answer to that call, with the tool's own output; where the call
/// failed, with the error and its message. Nothing said before is touched.
pub proof fn law_tool_output_reaches_the_model(t: &mut Turn, outcome: &Result<String, String>)
    requires
        call_ensures(Turn::on_tool_result, (t, outcome), ()),
        old(t).pending is Some,
    ensures
        ({
            let call = old(t).pending->Some_0.call;
            let response = match *outcome {
                Ok(output) => output@,
                Err(message) => "{\"message\":"@ + encoding::json_string(message@)
                    + ",\"status\":\"error\"}"@,
            };
            let n = old(t).transcript@.len() as int;
            let m = old(t).turn_messages@.len() as int;
            &&& final(t).transcript@.len() > n
            &&& is_tool_answer(
                final(t).transcript@[n],
                call.name@,
                call.function_call_id@,
                response,
            )
            &&& goes_on(old(t).transcript@, final(t).transcript@)
            &&& final(t).turn_messages@.len() > m
            &&& is_tool_answer(
                final(t).turn_messages@[m],
                call.name@,
                call.function_call_id@,
                response,
            )
            &&& goes_on(old(t).turn_messages@, final(t).turn_messages@)
        }),
{
    let n = old(t).transcript@.len() as int;
    let m = old(t).turn_messages@.len() as int;
    assert(content::contents_view(final(t).transcript@).take(n) =~= content::contents_view(
        old(t).transcript@,
    ));
    assert(content::contents_view(final(t).turn_messages@).take(m) =~= content::contents_view(
        old(t).turn_messages@,
    ));
    assert(final(t)@.transcript.len() > n && final(t)@.turn_messages.len() > m);
    lemma_goes_on(old(t).transcript@, final(t).transcript@);
    lemma_goes_on(old(t).turn_messages@, final(t).turn_messages@);
    lemma_message_at(final(t).transcript@, n);
    lemma_message_at(final(t).turn_messages@, m);
}

/// What came of a call is recorded: which call it was, whether it failed and what it gave; and the
/// counts of calls and of failures grow by it.
pub proof fn law_outcome_is_recorded(
    t: &mut Turn,
    outcome: &Result<String, String>,
    signature: String,
    name: &str,
    args: &str,
)
    requires
        call_ensures(Turn::on_tool_result, (t, outcome), ()),
        old(t).pending is Some,
        name@ == old(t).pending->Some_0.call.name@,
        args@ == old(t).pending->Some_0.call.args@,
        call_ensures(util::tool_call_signature, (name, args), signature),
    ensures
        ({
            let call = old(t).pending->Some_0.call;
            let k = old(t).tool_calls@.len() as int;
            let trace = final(t).tool_calls@[k];
            &&& final(t).tool_calls@.len() == k + 1
            &&& trace.function_call_id@ == call.function_call_id@
            &&& trace.name@ == call.name@
            &&& trace.args@ == call.args@
            &&& trace.status@ == if *outcome is Ok {
                "ok"@
            } else {
                "error"@
            }
            &&& *outcome matches Ok(output) ==> trace.output@ == output@
            &&& *outcome matches Err(message) ==> trace.output@ == "{\"message\":"@
                + encoding::json_string(message@) + ",\"status\":\"error\"}"@
            &&& forall|i: int|
                0 <= i < k ==> (#[trigger] final(t).tool_calls@[i])@ == old(t).tool_calls@[i]@
        }),
        final(t).state.tool_calls_executed == old(t).state.tool_calls_executed + 1,
        final(t).state.tool_errors == old(t).state.tool_errors + if *outcome is Err {
            1int
        } else {
            0
        },
        final(t).state.recent_tool_signatures@.len() > 0,
        final(t).state.recent_tool_signatures@.last()@ == signature@,
        final(t).iterations == old(t).iterations,
{
    let a = turn::call_traces_view(old(t).tool_calls@);
    let b = turn::call_traces_view(final(t).tool_calls@);
    let k = old(t).tool_calls@.len() as int;
    assert(b == final(t)@.tool_calls && a == old(t)@.tool_calls);
    assert(b.len() == k + 1);
    assert(b[k] == final(t).tool_calls@[k]@);
    assert forall|i: int| 0 <= i < k implies (#[trigger] final(t).tool_calls@[i])@ == old(
        t,
    ).tool_calls@[i]@ by {
        assert(b[i] == a[i]);
    }
    let recent = text::strings_view(final(t).state.recent_tool_signatures@);
    assert(recent == final(t)@.state.recent);
    assert(recent.len() > 0);
    assert(recent.last() == final(t).state.recent_tool_signatures@.last()@);
}

/// A turn breaks off exactly where its failures reach the budget: with a message that says so, as
/// the last of the turn, and never otherwise.
pub proof fn law_failures_break_a_turn_off(
    t: &mut Turn,
    outcome: &Result<String, String>,
    said: Content,
    reason: &str,
    traces: &Vec<ToolCallTrace>,
)
    requires
        call_ensures(Turn::on_tool_result, (t, outcome), ()),
        old(t).pending is Some,
        old(t).final_content is None,
        reason@ == "error budget exhausted before the turn converged"@,
        traces@ == final(t).tool_calls@,
        call_ensures(turn::build_fallback_content, (reason, traces), said),
    ensures
        final(t).pending is None,
        final(t).final_content is Some <==> final(t).state.tool_errors >= final(t).error_budget,
        final(t).final_content matches Some(m) ==> {
            &&& m@ == said@
            &&& final(t).turn_messages@.last()@ == said@
            &&& final(t).turn_messages@.len() == old(t).turn_messages@.len() + 2
            &&& final(t).finish_reason matches Some(f) && f@ == "error_budget"@
        },
        final(t).final_content is None ==> {
            &&& final(t).turn_messages@.len() == old(t).turn_messages@.len() + 1
            &&& text::opt_view(final(t).finish_reason) == text::opt_view(old(t).finish_reason)
        },
        final(t).error_budget == old(t).error_budget,
{
    let ms = content::contents_view(final(t).turn_messages@);
    assert(ms == final(t)@.turn_messages);
    assert(ms.last() == final(t).turn_messages@.last()@);
}

/// Where no answer was found the user is told why, and what the last two calls gave, the latest
/// first.
pub proof fn law_fallback_tells_the_latest_calls(
    reason: &str,
    traces: &Vec<ToolCallTrace>,
    r: Content,
    last: &str,
    last_preview: String,
    before: &str,
    before_preview: String,
)
    requires
        call_ensures(turn::build_fallback_content, (reason, traces), r),
        call_ensures(util::preview_json, (last, 120), last_preview),
        call_ensures(util::preview_json, (before, 120), before_preview),
        traces@.len() > 0 ==> last@ == traces@.last().output@,
        traces@.len() > 1 ==> before@ == traces@[traces@.len() - 2].output@,
    ensures
        traces@.len() == 0 ==> is_text(
            r,
            "model"@,
            "I stopped because "@ + reason@ + ". Please clarify the next objective."@,
        ),
        traces@.len() == 1 ==> is_text(
            r,
            "model"@,
            "I stopped because "@ + reason@ + ". Recent tool observations: "@ + (
            traces@.last().name@ + " => "@ + last_preview@),
        ),
        traces@.len() > 1 ==> is_text(
            r,
            "model"@,
            "I stopped because "@ + reason@ + ". Recent tool observations: "@ + (
            traces@.last().name@ + " => "@ + last_preview@ + "; "@ + (
            traces@[traces@.len() - 2].name@ + " => "@ + before_preview@)),
        ),
{
    let ts = turn::call_traces_view(traces@);
    if traces@.len() > 0 {
        assert(ts.last() == traces@.last()@);
        assert(ts[ts.len() - 1] == traces@.last()@);
    }
    if traces@.len() > 1 {
        assert(ts[ts.len() - 2] == traces@[traces@.len() - 2]@);
    }
    assert(r@.parts.len() == r.parts@.len());
    assert(r@.parts[0] == r.parts@[0]@);
}

/// What a round of planning decides is what is done: an answer is given to the user and ends the
/// turn, for the reason that the model gave; a question is put to the user and ends it too; a call is
/// asked for in the model's name and waits for its outcome.
pub proof fn law_decision_is_carried_out(
    t: &mut Turn,
    reply: &LlmReply,
    uuids: &Vec<[u8; 16]>,
    session_id: &str,
    model_content: &Content,
    candidates: Vec<ActionCandidate>,
    selected: SelectedAction,
)
    requires
        call_ensures(Turn::on_reply_with, (t, reply, uuids), ()),
        reply.content matches Some(m) && model_content@ == m@,
        session_id@ == old(t).session_id@,
        call_ensures(
            plan::plan_candidates,
            (
                session_id,
                model_content,
                uuids,
                old(t).probe_history,
                old(t).planner_candidate_limit,
            ),
            candidates,
        ),
        call_ensures(
            plan::select_action,
            (candidates, &old(t).state, old(t).max_tool_calls_per_turn),
            selected,
        ),
        old(t).pending is None,
        old(t).final_content is None,
    ensures
        final(t).iterations == old(t).iterations + 1,
        goes_on(old(t).transcript@, final(t).transcript@),
        final(t).transcript@.len() == old(t).transcript@.len() + 1,
        goes_on(old(t).turn_messages@, final(t).turn_messages@),
        final(t).turn_messages@.len() == old(t).turn_messages@.len() + 1,
        match selected.action {
            PlannedAction::Answer { text } => {
                &&& final(t).final_content matches Some(m) && is_text(m, "model"@, text@)
                &&& is_text(final(t).transcript@.last(), "model"@, text@)
                &&& is_text(final(t).turn_messages@.last(), "model"@, text@)
                &&& final(t).pending is None
                &&& text::opt_view(final(t).finish_reason) == turn::opt_finish(reply.finish_reason)
            },
            PlannedAction::AskUser { question } => {
                &&& final(t).final_content matches Some(m) && is_text(m, "model"@, question@)
                &&& is_text(final(t).transcript@.last(), "model"@, question@)
                &&& is_text(final(t).turn_messages@.last(), "model"@, question@)
                &&& final(t).pending is None
                &&& final(t).finish_reason matches Some(f) && f@ == "need_user"@
            },
            PlannedAction::CallTool(call) => {
                &&& final(t).final_content is None
                &&& is_call_request(
                    final(t).transcript@.last(),
                    call.name@,
                    call.function_call_id@,
                    call.args@,
                )
                &&& is_call_request(
                    final(t).turn_messages@.last(),
                    call.name@,
                    call.function_call_id@,
                    call.args@,
                )
                &&& final(t).pending matches Some(p) && {
                    &&& p.call.name@ == call.name@
                    &&& p.call.args@ == call.args@
                    &&& p.call.function_call_id@ == call.function_call_id@
                    &&& p.selected_preview@ == selected.selected_preview@
                    &&& p.selection_reason@ == selected.selection_reason@
                }
            },
        },
{
    assert(turn::reply_parts(*reply) == model_content@.parts);
    assert(selected@ == turn::commitment(old(t)@, *reply, uuids@));
    let n = old(t).transcript@.len() as int;
    let m = old(t).turn_messages@.len() as int;
    assert(content::contents_view(final(t).transcript@).take(n) =~= content::contents_view(
        old(t).transcript@,
    ));
    assert(content::contents_view(final(t).turn_messages@).take(m) =~= content::contents_view(
        old(t).turn_messages@,
    ));
    assert(final(t)@.transcript.len() == n + 1 && final(t)@.turn_messages.len() == m + 1);
    lemma_goes_on(old(t).transcript@, final(t).transcript@);
    lemma_goes_on(old(t).turn_messages@, final(t).turn_messages@);
    lemma_message_at(final(t).transcript@, n);
    lemma_message_at(final(t).turn_messages@, m);
    if let Some(c) = final(t).final_content {
        assert(c@.parts.len() == c.parts@.len());
        assert(c@.parts[0] == c.parts@[0]@);
    }
}

/// A reply without content counts as one that says nothing.
pub proof fn law_empty_reply_says_nothing(reply: LlmReply)
    requires
        reply.content is None,
    ensures
        turn::reply_parts(reply).len() == 1,
        turn::reply_parts(reply)[0] matches content::PartView::Text { text } && text.len() == 0,
{
    reveal_strlit("");
}

/// The name of the reason for which the model stopped is passed on.
pub proof fn law_finish_reasons_have_names(
    reason: stream::FinishReason,
    r: String,
    o: Option<stream::FinishReason>,
)
    requires
        call_ensures(stream::finish_reason_to_string, (&reason,), r),
    ensures
        reason is Stop ==> r@ == "stop"@,
        reason is MaxTokens ==> r@ == "max_tokens"@,
        reason is Safety ==> r@ == "safety"@,
        reason is Recitation ==> r@ == "recitation"@,
        reason is Other ==> r@ == "other"@,
        o == Some(reason) ==> turn::opt_finish(o) == Some(r@),
        o is None ==> turn::opt_finish(o) is None,
{
}

/// A turn waits for the outcome of its call where it has one, else for the model as long as rounds
/// are left, else for a final answer; and for nothing once it has ended.
pub proof fn law_turn_waits_for_what_is_next(t: &Turn, r: TurnStep)
    requires
        call_ensures(Turn::next_step, (t,), r),
    ensures
        r is Done <==> t.final_content is Some,
        r is RunTool <==> t.final_content is None && t.pending is Some,
        r is AskModel <==> t.final_content is None && t.pending is None && t.iterations
            < t.max_iterations,
        r is Synthesize <==> t.final_content is None && t.pending is None && t.iterations
            >= t.max_iterations,
{
}

/// A tool is asked to run exactly the call that waits, for the user and in the session of the turn.
pub proof fn law_waiting_call_is_dispatched(t: &Turn, r: ToolExecutionRequest)
    requires
        call_ensures(Turn::dispatch_tool_call, (t,), r),
        t.pending is Some,
    ensures
        r.tool_name@ == t.pending->Some_0.call.name@,
        r.args@ == t.pending->Some_0.call.args@,
        r.function_call_id@ == t.pending->Some_0.call.function_call_id@,
        r.app_name@ == t.app_name@,
        r.user_id@ == t.user_id@,
        r.session_id@ == t.session_id@,
        r.invocation_id@ == t.invocation_id@,
        is_text(r.user_content, "user"@, t.message@),
{
    assert(r.user_content@.parts.len() == r.user_content.parts@.len());
    assert(r.user_content@.parts[0] == r.user_content.parts@[0]@);
}

/// A turn that ran out of rounds ends with the final answer that the model gives, or where it gives
/// none with a message that says so.
pub proof fn law_final_answer_ends_the_turn(
    t: &mut Turn,
    answer: Option<Content>,
    said: Content,
    reason: &str,
    traces: &Vec<ToolCallTrace>,
)
    requires
        call_ensures(Turn::on_synthesis, (t, answer), ()),
        reason@ == "max_iterations reached before selecting a final answer"@,
        traces@ == old(t).tool_calls@,
        call_ensures(turn::build_fallback_content, (reason, traces), said),
    ensures
        final(t).final_content matches Some(m) && {
            &&& answer matches Some(a) ==> m@ == a@
            &&& answer is None ==> m@ == said@
            &&& final(t).turn_messages@.last()@ == m@
            &&& final(t).transcript@.last()@ == m@
        },
        final(t).finish_reason matches Some(f) && f@ == "max_iterations"@,
        final(t).turn_messages@.len() == old(t).turn_messages@.len() + 1,
        goes_on(old(t).turn_messages@, final(t).turn_messages@),
        final(t).iterations == old(t).iterations,
{
    let ms = content::contents_view(final(t).turn_messages@);
    let ts = content::contents_view(final(t).transcript@);
    let m = old(t).turn_messages@.len() as int;
    assert(ms == final(t)@.turn_messages && ts == final(t)@.transcript);
    assert(ms.last() == final(t).turn_messages@.last()@);
    assert(ts.last() == final(t).transcript@.last()@);
    assert(ms.take(m) =~= content::contents_view(old(t).turn_messages@));
    lemma_goes_on(old(t).turn_messages@, final(t).turn_messages@);
}

/// A turn begins with the system prompt, the earlier messages of the session in order, and what the
/// user says; for that user and in that session, with as many rounds as the request asks for or else
/// the engine allows.
pub proof fn law_turn_begins_with_what_was_said(
    engine: &ToolCallEngine,
    request: &ChatTurnRequest,
    prior: Vec<Content>,
    uuid: &[u8; 16],
    r: Turn,
    prompt: String,
    base: &str,
    history_on_offer: bool,
    name: &str,
)
    requires
        call_ensures(ToolCallEngine::begin_turn_with, (engine, request, prior, uuid), r),
        base@ == (if request.system_prompt is Some && !text::is_blank(
            request.system_prompt->Some_0@,
        ) {
            request.system_prompt->Some_0@
        } else {
            engine.default_system_prompt@
        }),
        call_ensures(ToolCallEngine::build_planner_system_prompt, (engine, base), prompt),
        name@ == "sessions_history"@,
        call_ensures(tools::ToolRegistry::has, (&engine.registry, name), history_on_offer),
    ensures
        r.transcript@.len() == prior@.len() + 2,
        is_text(r.transcript@[0], "system"@, prompt@),
        forall|i: int| 0 <= i < prior@.len() ==> (#[trigger] r.transcript@[i + 1])@ == prior@[i]@,
        is_text(r.transcript@.last(), "user"@, request.message@),
        r.turn_messages@.len() == 1,
        is_text(r.turn_messages@[0], "user"@, request.message@),
        r.session_id@ == request.session_id@,
        r.user_id@ == request.user_id@,
        r.message@ == request.message@,
        r.app_name@ == engine.app_name@,
        r.persist == request.persist,
        request.max_iterations matches Some(n) ==> r.max_iterations == n,
        request.max_iterations is None ==> r.max_iterations == engine.max_iterations,
        r.max_tool_calls_per_turn == engine.max_tool_calls_per_turn,
        r.planner_candidate_limit == engine.planner_candidate_limit,
        r.error_budget == engine.error_budget,
        r.probe_history <==> prior@.len() > 0 && history_on_offer,
        r.tool_calls@.len() == 0,
        r.planning_steps@.len() == 0,
        r.iterations == 0,
        r.state.tool_calls_executed == 0,
        r.state.tool_errors == 0,
        r.pending is None,
        r.final_content is None,
        r.finish_reason is None,
{
    let ts = content::contents_view(r.transcript@);
    let ms = content::contents_view(r.turn_messages@);
    assert(ts == r@.transcript && ms == r@.turn_messages);
    assert(ts.len() == prior@.len() + 2 && ms.len() == 1);
    lemma_message_at(r.transcript@, 0);
    lemma_message_at(r.transcript@, r.transcript@.len() - 1);
    lemma_message_at(r.turn_messages@, 0);
    assert forall|i: int| 0 <= i < prior@.len() implies (#[trigger] r.transcript@[i + 1])@
        == prior@[i]@ by {
        assert(ts[i + 1] == r.transcript@[i + 1]@);
        assert(content::contents_view(prior@)[i] == prior@[i]@);
    }
    assert(r@.tool_calls.len() == 0 && r@.steps.len() == 0);
}

/// The planner is told what the engine was told, unchanged and first; what follows does not depend
/// on it.
pub proof fn law_system_prompt_is_kept(
    engine: &ToolCallEngine,
    a: &str,
    b: &str,
    ra: String,
    rb: String,
)
    requires
        call_ensures(ToolCallEngine::build_planner_system_prompt, (engine, a), ra),
        call_ensures(ToolCallEngine::build_planner_system_prompt, (engine, b), rb),
    ensures
        ra@.len() > a@.len(),
        ra@.take(a@.len() as int) == a@,
        ra@.skip(a@.len() as int) == rb@.skip(b@.len() as int),
{
    reveal_strlit(
        "\n\nLoop policy:\n- Work as an iterative plan-execute-observe loop.\n- Plan only the next action, never a long chain.\n- Consider up to ",
    );
    assert(ra@.take(a@.len() as int) =~= a@);
    assert(ra@.skip(a@.len() as int) =~= rb@.skip(b@.len() as int));
}

/// What the caller gets back is what happened: the text of the last message as the answer, the
/// messages of the turn, its calls and rounds, and why it ended.
pub proof fn law_response_tells_the_turn(
    t: Turn,
    stored_count: usize,
    r: ChatTurnResponse,
    said: &Content,
    answer: String,
    shown: Vec<session_store::MessageView>,
)
    requires
        call_ensures(Turn::finish, (t, stored_count), r),
        t.final_content matches Some(m) && m@ == said@,
        call_ensures(util::extract_text, (said,), answer),
        call_ensures(session_store::MessageView::of_all, (&t.turn_messages, 0), shown),
    ensures
        r.answer@ == answer@,
        r.session_id@ == t.session_id@,
        r.user_id@ == t.user_id@,
        text::opt_view(r.finish_reason) == text::opt_view(t.finish_reason),
        r.iterations == t.iterations,
        r.tool_calls == t.tool_calls,
        r.planning_steps == t.planning_steps,
        session_store::message_views(r.turn_messages@) == session_store::message_views(shown@),
        r.turn_messages@.len() == t.turn_messages@.len(),
        t.persist ==> r.session_message_count == stored_count,
        !t.persist ==> r.session_message_count == t.turn_messages@.len(),
{
    assert(t@.turn_messages.skip(0) =~= t@.turn_messages);
    assert(session_store::message_views(r.turn_messages@).len() == t@.turn_messages.len());
}

/// What a turn said is in its session afterwards, behind all that was there, exactly where it is to
/// be stored; other sessions and the order of sessions do not change; a turn that broke off changes
/// nothing.
pub proof fn law_turn_is_stored_where_asked(
    store: &mut SessionStore,
    held: Result<Turn, String>,
    r: Result<ChatTurnResponse, String>,
)
    requires
        call_ensures(turn::conclude_turn, (store, held), r),
        held matches Ok(t) ==> t.final_content is Some,
    ensures
        r is Ok <==> held is Ok,
        held matches Err(m) ==> r->Err_0@ == m@ && final(store).sessions@ == old(store).sessions@,
        held matches Ok(t) ==> {
            let id = t.session_id@;
            let said = content::contents_view(t.turn_messages@);
            &&& t.persist ==> final(store).messages(id) == old(store).messages(id) + said
            &&& t.persist ==> final(store).ids().contains(id)
            &&& t.persist ==> r->Ok_0.session_message_count == old(store).messages(id).len()
                + said.len()
            &&& !t.persist ==> final(store).messages(id) == old(store).messages(id)
            &&& !t.persist ==> final(store).ids() == old(store).ids()
            &&& !t.persist ==> r->Ok_0.session_message_count == said.len()
            &&& r->Ok_0.session_id@ == id
            &&& r->Ok_0.user_id@ == t.user_id@
            &&& r->Ok_0.answer@ == text::trimmed(util::text_of(t.final_content->Some_0@.parts))
            &&& text::opt_view(r->Ok_0.finish_reason) == text::opt_view(t.finish_reason)
            &&& r->Ok_0.iterations == t.iterations
            &&& r->Ok_0.tool_calls@.len() == t.tool_calls@.len()
            &&& forall|other: Seq<char>|
                other != id ==> #[trigger] final(store).messages(other) == old(store).messages(
                    other,
                )
            &&& old(store).ids().len() <= final(store).ids().len()
            &&& forall|i: int|
                0 <= i < old(store).ids().len() ==> #[trigger] final(store).ids()[i] == old(
                    store,
                ).ids()[i]
        },
{
    if let Ok(t) = held {
        let id = t.session_id@;
        let ids = old(store).ids();
        assert(turn::call_traces_view(r->Ok_0.tool_calls@).len() == r->Ok_0.tool_calls@.len());
        assert(turn::call_traces_view(t.tool_calls@).len() == t.tool_calls@.len());
        if t.persist && !ids.contains(id) {
            assert(ids.push(id)[ids.len() as int] == id);
        }
    }
}

/// Whether two records of a candidate are the same.
pub open spec fn same_candidate(
    a: plan::PlanningCandidateTrace,
    b: plan::PlanningCandidateTrace,
) -> bool {
    &&& a.label@ == b.label@
    &&& a.action_type@ == b.action_type@
    &&& a.preview@ == b.preview@
    &&& a.selected == b.selected
    &&& a.reason@ == b.reason@
}

/// Whether a record tells of a round: what was chosen and why, what was considered, and what came of
/// it.
pub open spec fn is_round(
    step: turn::PlanningStepTrace,
    iteration: int,
    chosen: Seq<char>,
    reason: Seq<char>,
    observation: Seq<char>,
    considered: Seq<plan::PlanningCandidateTrace>,
) -> bool {
    &&& step.iteration == iteration
    &&& step.selected_action@ == chosen
    &&& step.selection_reason@ == reason
    &&& step.observation matches Some(o) && o@ == observation
    &&& step.candidates@.len() == considered.len()
    &&& forall|i: int|
        0 <= i < considered.len() ==> same_candidate(#[trigger] step.candidates@[i], considered[i])
}

proof fn lemma_round(
    step: turn::PlanningStepTrace,
    considered: Seq<plan::PlanningCandidateTrace>,
)
    requires
        step@.candidates == plan::candidate_traces_view(considered),
    ensures
        step.candidates@.len() == considered.len(),
        forall|i: int|
            0 <= i < considered.len() ==> same_candidate(
                #[trigger] step.candidates@[i],
                considered[i],
            ),
{
    let a = plan::candidate_traces_view(step.candidates@);
    let b = plan::candidate_traces_view(considered);
    assert(a == b);
    assert(a.len() == step.candidates@.len() && b.len() == considered.len());
    assert forall|i: int| 0 <= i < considered.len() implies same_candidate(
        #[trigger] step.candidates@[i],
        considered[i],
    ) by {
        assert(a[i] == step.candidates@[i]@ && b[i] == considered[i]@);
    }
}

/// The round of a call is on record once its outcome is known: what was chosen and why, and how the
/// outcome reads.
pub proof fn law_round_of_a_call_is_recorded(
    t: &mut Turn,
    outcome: &Result<String, String>,
    payload: &str,
    preview: String,
)
    requires
        call_ensures(Turn::on_tool_result, (t, outcome), ()),
        old(t).pending is Some,
        payload@ == match *outcome {
            Ok(output) => output@,
            Err(message) => "{\"message\":"@ + encoding::json_string(message@)
                + ",\"status\":\"error\"}"@,
        },
        call_ensures(util::preview_json, (payload, 160), preview),
    ensures
        ({
            let k = old(t).planning_steps@.len() as int;
            let p = old(t).pending->Some_0;
            &&& final(t).planning_steps@.len() == k + 1
            &&& is_round(
                final(t).planning_steps@[k],
                old(t).iterations as int,
                p.selected_preview@,
                p.selection_reason@,
                (if *outcome is Ok {
                    "tool completed successfully: "@
                } else {
                    "tool failed: "@
                }) + preview@,
                p.candidate_traces@,
            )
            &&& forall|i: int|
                0 <= i < k ==> (#[trigger] final(t).planning_steps@[i])@ == old(
                    t,
                ).planning_steps@[i]@
        }),
{
    let a = turn::step_traces_view(old(t).planning_steps@);
    let b = turn::step_traces_view(final(t).planning_steps@);
    let k = old(t).planning_steps@.len() as int;
    assert(b == final(t)@.steps && a == old(t)@.steps);
    assert(b.len() == k + 1);
    assert(b[k] == final(t).planning_steps@[k]@);
    lemma_round(final(t).planning_steps@[k], old(t).pending->Some_0.candidate_traces@);
    assert forall|i: int| 0 <= i < k implies (#[trigger] final(t).planning_steps@[i])@ == old(
        t,
    ).planning_steps@[i]@ by {
        assert(b[i] == a[i]);
    }
}

/// The round of an answer or a question is on record at once; that of a call waits for its outcome.
pub proof fn law_round_of_an_answer_is_recorded(
    t: &mut Turn,
    reply: &LlmReply,
    uuids: &Vec<[u8; 16]>,
    session_id: &str,
    model_content: &Content,
    candidates: Vec<ActionCandidate>,
    selected: SelectedAction,
)
    requires
        call_ensures(Turn::on_reply_with, (t, reply, uuids), ()),
        reply.content matches Some(m) && model_content@ == m@,
        session_id@ == old(t).session_id@,
        call_ensures(
            plan::plan_candidates,
            (
                session_id,
                model_content,
                uuids,
                old(t).probe_history,
                old(t).planner_candidate_limit,
            ),
            candidates,
        ),
        call_ensures(
            plan::select_action,
            (candidates, &old(t).state, old(t).max_tool_calls_per_turn),
            selected,
        ),
    ensures
        ({
            let k = old(t).planning_steps@.len() as int;
            let n = final(t).planning_steps@.len() as int;
            match selected.action {
                PlannedAction::CallTool(_) => n == k,
                PlannedAction::Answer { .. } => n == k + 1 && is_round(
                    final(t).planning_steps@[k],
                    old(t).iterations + 1,
                    selected.selected_preview@,
                    selected.selection_reason@,
                    "returned final answer"@,
                    selected.candidate_traces@,
                ),
                PlannedAction::AskUser { .. } => n == k + 1 && is_round(
                    final(t).planning_steps@[k],
                    old(t).iterations + 1,
                    selected.selected_preview@,
                    selected.selection_reason@,
                    "asking user for clarification"@,
                    selected.candidate_traces@,
                ),
            }
        }),
        final(t).tool_calls@.len() == old(t).tool_calls@.len(),
        final(t).state@ == old(t).state@,
{
    assert(turn::reply_parts(*reply) == model_content@.parts);
    assert(selected@ == turn::commitment(old(t)@, *reply, uuids@));
    let a = turn::step_traces_view(old(t).planning_steps@);
    let b = turn::step_traces_view(final(t).planning_steps@);
    let k = old(t).planning_steps@.len() as int;
    assert(b == final(t)@.steps && a == old(t)@.steps);
    assert(b.len() == final(t).planning_steps@.len());
    assert(turn::call_traces_view(final(t).tool_calls@).len() == final(t).tool_calls@.len());
    if b.len() > k {
        assert(b[k] == final(t).planning_steps@[k]@);
        lemma_round(final(t).planning_steps@[k], selected.candidate_traces@);
    }
}

/// A new engine considers three candidates, bears one failure before the next ends a turn, and allows
/// as many calls as rounds.
pub proof fn law_new_engine(
    app_name: String,
    registry: tools::ToolRegistry,
    prompt: String,
    max_iterations: usize,
    r: ToolCallEngine,
)
    requires
        call_ensures(ToolCallEngine::new, (app_name, registry, prompt, max_iterations), r),
    ensures
        r.app_name == app_name,
        r.registry == registry,
        r.default_system_prompt == prompt,
        r.max_iterations == max_iterations,
        r.max_tool_calls_per_turn == max_iterations,
        r.planner_candidate_limit == 3,
        r.error_budget == 2,
{
}

/// The planner is told how to work, and how many candidates it may consider.
pub proof fn law_planner_is_told_how_to_work(
    engine: &ToolCallEngine,
    base: &str,
    r: String,
    limit: String,
)
    requires
        call_ensures(ToolCallEngine::build_planner_system_prompt, (engine, base), r),
        call_ensures(
            number::decimal_text,
            (engine.planner_candidate_limit as u64,),
            limit,
        ),
    ensures
        r@ == base@
            + "\n\nLoop policy:\n- Work as an iterative plan-execute-observe loop.\n- Plan only the next action, never a long chain.\n- Consider up to "@
            + limit@
            + " immediate next-step directions before committing one.\n- Commit at most one tool call per iteration.\n- After each tool result, re-plan from the updated transcript.\n- Avoid repeating the same tool with the same arguments.\n- Only return a final answer when you have verified the result is correct and meaningful, not just that a command ran successfully.\n- If a tool result is an error or indicates service unavailability, try a different approach rather than returning that as the answer.\n- Do not spend turns probing whether curl, wget, nc, python, or similar binaries exist unless the user explicitly asked to debug the server environment.\n- If more user input is required, ask one concise clarification question.\n- If the answer is ready, return the final answer directly."@,
{
    assert(engine.planner_candidate_limit as u64 as nat == engine.planner_candidate_limit as nat);
}

proof fn lemma_no_calls(parts: Seq<content::PartView>, uuids: Seq<[u8; 16]>)
    requires
        forall|i: int| 0 <= i < parts.len() ==> !((#[trigger] parts[i]) is FunctionCall),
    ensures
        util::calls_of(parts, uuids) == Seq::<util::CallView>::empty(),
    decreases parts.len(),
{
    if parts.len() > 0 {
        let front = parts.drop_last();
        assert forall|i: int| 0 <= i < front.len() implies !((#[trigger] front[i]) is
            FunctionCall) by {
            assert(front[i] == parts[i]);
        }
        lemma_no_calls(front, uuids);
        assert(!(parts[parts.len() - 1] is FunctionCall));
    }
}

/// A reply that asks for no call and says something ends the turn: what it says, trimmed, is the
/// answer.
pub proof fn law_plain_reply_is_the_answer(t: &mut Turn, reply: &LlmReply, said: &Content)
    requires
        call_ensures(Turn::on_reply, (t, reply), ()),
        old(t).planner_candidate_limit > 0,
        reply.content matches Some(m) && m == *said,
        forall|i: int|
            0 <= i < said.parts@.len() ==> !((#[trigger] said.parts@[i]) is FunctionCall),
        !text::is_blank(util::text_of(said@.parts)),
    ensures
        final(t).final_content matches Some(m) && is_text(
            m,
            "model"@,
            text::trimmed(util::text_of(said@.parts)),
        ),
        final(t).pending is None,
        final(t).turn_messages@.len() == old(t).turn_messages@.len() + 1,
        is_text(
            final(t).turn_messages@.last(),
            "model"@,
            text::trimmed(util::text_of(said@.parts)),
        ),
        text::opt_view(final(t).finish_reason) == turn::opt_finish(reply.finish_reason),
        final(t).iterations == old(t).iterations + 1,
{
    let uuids = choose|uuids: Seq<[u8; 16]>|
        #![trigger turn::after_reply(old(t)@, *reply, uuids)]
        uuids.len() == turn::reply_parts(*reply).len() + 1 && final(t)@ == turn::after_reply(
            old(t)@,
            *reply,
            uuids,
        );
    let parts = said@.parts;
    let answer = text::trimmed(util::text_of(parts));
    assert(turn::reply_parts(*reply) == parts);
    assert forall|i: int| 0 <= i < parts.len() implies !((#[trigger] parts[i]) is FunctionCall) by {
        assert(parts[i] == said.parts@[i]@);
    }
    lemma_no_calls(parts, uuids);
    text::lemma_trimmed_empty(util::text_of(parts));
    text::law_trimming_is_idempotent(util::text_of(parts));
    text::lemma_trimmed_empty(answer);
    let input = turn::plan_input(old(t)@, *reply, uuids);
    let cs = plan::candidates_of(input);
    assert(plan::distinct_calls(util::calls_of(parts, uuids)) =~= Seq::empty());
    assert(cs[0] == plan::answer_candidate(answer));
    assert(plan::objection(cs[0], old(t)@.state, old(t)@.frame.max_calls) is None);
    assert(plan::first_viable(cs, old(t)@.state, old(t)@.frame.max_calls) == 0);
    assert(turn::commitment(old(t)@, *reply, uuids).action == cs[0].action);
    if let Some(c) = final(t).final_content {
        assert(c@.parts.len() == c.parts@.len());
        assert(c@.parts[0] == c.parts@[0]@);
    }
    let ms = content::contents_view(final(t).turn_messages@);
    assert(ms == final(t)@.turn_messages);
    assert(ms.len() == final(t).turn_messages@.len());
    lemma_message_at(final(t).turn_messages@, ms.len() - 1);
}

/// A reply that asks for a call first is followed, under the identifier that it gave, as long as the
/// turn has calls left and the call neither repeats the last one nor takes turns with it.
pub proof fn law_asked_call_is_made(t: &mut Turn, reply: &LlmReply, said: &Content)
    requires
        call_ensures(Turn::on_reply, (t, reply), ()),
        old(t).planner_candidate_limit > 0,
        reply.content matches Some(m) && m == *said,
        said.parts@.len() > 0,
        said.parts@[0] is FunctionCall,
        call_can_be_made(
            said.parts@[0]->FunctionCall_name@,
            said.parts@[0]->FunctionCall_args@,
            old(t).state,
            old(t).max_tool_calls_per_turn,
        ),
    ensures
        old(t).final_content is None ==> final(t).final_content is None,
        final(t).pending matches Some(p) && {
            &&& p.call.name@ == said.parts@[0]->FunctionCall_name@
            &&& p.call.args@ == said.parts@[0]->FunctionCall_args@
            &&& said.parts@[0]->FunctionCall_id matches Some(id) ==> p.call.function_call_id@ == id@
            &&& is_call_request(
                final(t).turn_messages@.last(),
                p.call.name@,
                p.call.function_call_id@,
                p.call.args@,
            )
        },
        final(t).iterations == old(t).iterations + 1,
{
    let uuids = choose|uuids: Seq<[u8; 16]>|
        #![trigger turn::after_reply(old(t)@, *reply, uuids)]
        uuids.len() == turn::reply_parts(*reply).len() + 1 && final(t)@ == turn::after_reply(
            old(t)@,
            *reply,
            uuids,
        );
    let parts = said@.parts;
    assert(turn::reply_parts(*reply) == parts);
    assert(parts[0] == said.parts@[0]@);
    lemma_first_call(parts, uuids);
    let first = plan::distinct_calls(util::calls_of(parts, uuids))[0];
    let input = turn::plan_input(old(t)@, *reply, uuids);
    let cs = plan::candidates_of(input);
    assert(cs[0] == plan::tool_candidate(first));
    let recent = old(t).state.recent_tool_signatures@;
    let seen = text::strings_view(recent);
    let n = recent.len() as int;
    if n >= 1 {
        assert(seen.last() == recent[n - 1]@ && seen[n - 1] == recent[n - 1]@);
    }
    if n >= 3 {
        assert(seen[n - 2] == recent[n - 2]@ && seen[n - 3] == recent[n - 3]@);
    }
    assert(plan::objection(cs[0], old(t)@.state, old(t)@.frame.max_calls) is None);
    assert(plan::first_viable(cs, old(t)@.state, old(t)@.frame.max_calls) == 0);
    assert(turn::commitment(old(t)@, *reply, uuids).action == cs[0].action);
    let ms = content::contents_view(final(t).turn_messages@);
    assert(ms == final(t)@.turn_messages);
    assert(ms.len() == final(t).turn_messages@.len());
    lemma_message_at(final(t).turn_messages@, ms.len() - 1);
}

proof fn lemma_first_call(parts: Seq<content::PartView>, uuids: Seq<[u8; 16]>)
    requires
        parts.len() > 0,
        parts[0] is FunctionCall,
    ensures
        ({
            let kept = plan::distinct_calls(util::calls_of(parts, uuids));
            &&& kept.len() > 0
            &&& kept[0].name == parts[0]->FunctionCall_name
            &&& kept[0].args == parts[0]->FunctionCall_args
            &&& parts[0]->FunctionCall_id matches Some(id) ==> kept[0].function_call_id == id
        }),
    decreases parts.len(),
{
    let front = parts.drop_last();
    let calls = util::calls_of(front, uuids);
    if parts.len() == 1 {
        assert(calls =~= Seq::empty());
        let one = util::calls_of(parts, uuids);
        assert(one.len() == 1);
        assert(one.drop_last() =~= Seq::empty());
        assert(plan::distinct_calls(one.drop_last()) =~= Seq::empty());
        assert(!plan::any_signature(Seq::empty(), plan::call_signature(one.last())));
    } else {
        assert(front[0] == parts[0]);
        lemma_first_call(front, uuids);
        let all = util::calls_of(parts, uuids);
        if parts.last() is FunctionCall {
            assert(all.drop_last() =~= calls);
        }
    }
}

/// A turn that is begun under a fresh identifier begins like any other.
pub proof fn law_fresh_turn_begins_like_any(
    engine: &ToolCallEngine,
    request: &ChatTurnRequest,
    prior: Vec<Content>,
    r: Turn,
)
    requires
        call_ensures(ToolCallEngine::begin_turn, (engine, request, prior), r),
    ensures
        r.transcript@.len() == prior@.len() + 2,
        r.transcript@[0].role@ == "system"@,
        forall|i: int| 0 <= i < prior@.len() ==> (#[trigger] r.transcript@[i + 1])@ == prior@[i]@,
        is_text(r.transcript@.last(), "user"@, request.message@),
        r.turn_messages@.len() == 1,
        is_text(r.turn_messages@[0], "user"@, request.message@),
        r.session_id@ == request.session_id@,
        r.user_id@ == request.user_id@,
        r.persist == request.persist,
        r.iterations == 0,
        r.pending is None,
        r.final_content is None,
{
    let ts = content::contents_view(r.transcript@);
    let ms = content::contents_view(r.turn_messages@);
    assert(ts == r@.transcript && ms == r@.turn_messages);
    assert(ts.len() == prior@.len() + 2 && ms.len() == 1);
    lemma_message_at(r.transcript@, 0);
    lemma_message_at(r.transcript@, r.transcript@.len() - 1);
    lemma_message_at(r.turn_messages@, 0);
    assert forall|i: int| 0 <= i < prior@.len() implies (#[trigger] r.transcript@[i + 1])@
        == prior@[i]@ by {
        assert(ts[i + 1] == r.transcript@[i + 1]@);
        assert(content::contents_view(prior@)[i] == prior@[i]@);
    }
}

} // verus!
