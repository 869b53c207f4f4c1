//! One turn of a conversation, as steps: ask the model, run a tool, ask for a final answer, finish.

use vstd::prelude::*;
use vstd::string::*;

use crate::encoding;
use crate::engine::content;
use crate::engine::content::{Content, ContentView, Part, PartView};
use crate::engine::plan;
use crate::engine::plan::{
    ActionView, CandidateTraceView, PlanInput, PlannedAction, PlanningCandidateTrace, SelectionView,
};
use crate::engine::state;
use crate::engine::state::{StateView, TurnState};
use crate::engine::stream;
use crate::engine::stream::LlmReply;
use crate::engine::util;
use crate::engine::util::{CallView, FunctionCallEnvelope};
use crate::number;
use crate::outside;
use crate::session_store;
use crate::session_store::{MessageView, SessionStore, ShownMessage};
use crate::text;
use crate::tools::ToolExecutionRequest;

verus! {

/// What is recorded of a call that was made; arguments and output are JSON text.
#[derive(Debug)]
pub struct ToolCallTrace {
    pub function_call_id: String,
    pub name: String,
    pub args: String,
    pub status: String,
    pub output: String,
}

/// The contents of such a record.
pub struct CallTraceView {
    pub function_call_id: Seq<char>,
    pub name: Seq<char>,
    pub args: Seq<char>,
    pub status: Seq<char>,
    pub output: Seq<char>,
}

impl View for ToolCallTrace {
    type V = CallTraceView;

    open spec fn view(&self) -> CallTraceView {
        CallTraceView {
            function_call_id: self.function_call_id@,
            name: self.name@,
            args: self.args@,
            status: self.status@,
            output: self.output@,
        }
    }
}

/// The contents of a list of such records.
pub open spec fn call_traces_view(ts: Seq<ToolCallTrace>) -> Seq<CallTraceView> {
    ts.map_values(|t: ToolCallTrace| t@)
}

/// What is recorded of one round of planning.
#[derive(Debug)]
pub struct PlanningStepTrace {
    pub iteration: usize,
    pub selected_action: String,
    pub selection_reason: String,
    pub observation: Option<String>,
    pub candidates: Vec<PlanningCandidateTrace>,
}

/// The contents of such a record.
pub struct StepTraceView {
    pub iteration: nat,
    pub selected_action: Seq<char>,
    pub selection_reason: Seq<char>,
    pub observation: Option<Seq<char>>,
    pub candidates: Seq<CandidateTraceView>,
}

impl View for PlanningStepTrace {
    type V = StepTraceView;

    open spec fn view(&self) -> StepTraceView {
        StepTraceView {
            iteration: self.iteration as nat,
            selected_action: self.selected_action@,
            selection_reason: self.selection_reason@,
            observation: text::opt_view(self.observation),
            candidates: plan::candidate_traces_view(self.candidates@),
        }
    }
}

/// The contents of a list of such records.
pub open spec fn step_traces_view(ts: Seq<PlanningStepTrace>) -> Seq<StepTraceView> {
    ts.map_values(|t: PlanningStepTrace| t@)
}

/// A call that was committed to and has not been answered yet.
#[derive(Debug)]
pub struct PendingCall {
    pub call: FunctionCallEnvelope,
    pub selected_preview: String,
    pub selection_reason: String,
    pub candidate_traces: Vec<PlanningCandidateTrace>,
}

/// The contents of such a call.
pub struct PendingView {
    pub call: CallView,
    pub preview: Seq<char>,
    pub reason: Seq<char>,
    pub traces: Seq<CandidateTraceView>,
}

impl View for PendingCall {
    type V = PendingView;

    open spec fn view(&self) -> PendingView {
        PendingView {
            call: self.call@,
            preview: self.selected_preview@,
            reason: self.selection_reason@,
            traces: plan::candidate_traces_view(self.candidate_traces@),
        }
    }
}

/// A turn under way.
#[derive(Debug)]
pub struct Turn {
    pub app_name: String,
    pub session_id: String,
    pub user_id: String,
    pub message: String,
    pub persist: bool,
    pub invocation_id: String,
    pub max_iterations: usize,
    pub max_tool_calls_per_turn: usize,
    pub planner_candidate_limit: usize,
    pub error_budget: usize,
    pub probe_history: bool,
    pub transcript: Vec<Content>,
    pub turn_messages: Vec<Content>,
    pub tool_calls: Vec<ToolCallTrace>,
    pub planning_steps: Vec<PlanningStepTrace>,
    pub state: TurnState,
    pub iterations: usize,
    pub finish_reason: Option<String>,
    pub pending: Option<PendingCall>,
    pub final_content: Option<Content>,
}

/// What stays the same for the whole turn.
pub struct TurnFrame {
    pub app_name: Seq<char>,
    pub session_id: Seq<char>,
    pub user_id: Seq<char>,
    pub message: Seq<char>,
    pub persist: bool,
    pub invocation_id: Seq<char>,
    pub max_iterations: nat,
    pub max_calls: nat,
    pub limit: nat,
    pub error_budget: nat,
    pub probe_history: bool,
}

/// The contents of a turn under way.
#[verifier::ext_equal]
pub struct TurnView {
    pub frame: TurnFrame,
    pub transcript: Seq<ContentView>,
    pub turn_messages: Seq<ContentView>,
    pub tool_calls: Seq<CallTraceView>,
    pub steps: Seq<StepTraceView>,
    pub state: StateView,
    pub iterations: nat,
    pub finish_reason: Option<Seq<char>>,
    pub pending: Option<PendingView>,
    pub final_content: Option<ContentView>,
}

impl View for Turn {
    type V = TurnView;

    open spec fn view(&self) -> TurnView {
        TurnView {
            frame: TurnFrame {
                app_name: self.app_name@,
                session_id: self.session_id@,
                user_id: self.user_id@,
                message: self.message@,
                persist: self.persist,
                invocation_id: self.invocation_id@,
                max_iterations: self.max_iterations as nat,
                max_calls: self.max_tool_calls_per_turn as nat,
                limit: self.planner_candidate_limit as nat,
                error_budget: self.error_budget as nat,
                probe_history: self.probe_history,
            },
            transcript: content::contents_view(self.transcript@),
            turn_messages: content::contents_view(self.turn_messages@),
            tool_calls: call_traces_view(self.tool_calls@),
            steps: step_traces_view(self.planning_steps@),
            state: self.state@,
            iterations: self.iterations as nat,
            finish_reason: text::opt_view(self.finish_reason),
            pending: match self.pending {
                Some(p) => Some(p@),
                None => None,
            },
            final_content: stream::opt_content(self.final_content),
        }
    }
}

/// What a turn waits for.
#[derive(Debug, Clone, Copy, PartialEq, Eq, Structural)]
pub enum TurnStep {
    /// A reply of the model to the transcript.
    AskModel,
    /// The outcome of the pending call.
    RunTool,
    /// A final answer asked for without tools.
    Synthesize,
    /// Nothing: the turn can be finished.
    Done,
}

/// What a turn waits for.
pub open spec fn step_of(t: TurnView) -> TurnStep {
    if t.final_content is Some {
        TurnStep::Done
    } else if t.pending is Some {
        TurnStep::RunTool
    } else if t.iterations < t.frame.max_iterations {
        TurnStep::AskModel
    } else {
        TurnStep::Synthesize
    }
}

/// One more message.
pub open spec fn with_message(t: TurnView, m: ContentView) -> TurnView {
    TurnView {
        transcript: t.transcript.push(m),
        turn_messages: t.turn_messages.push(m),
        ..t
    }
}

/// One more round of planning on record.
pub open spec fn with_step(
    t: TurnView,
    preview: Seq<char>,
    reason: Seq<char>,
    observation: Seq<char>,
    traces: Seq<CandidateTraceView>,
) -> TurnView {
    TurnView {
        steps: t.steps.push(
            StepTraceView {
                iteration: t.iterations,
                selected_action: preview,
                selection_reason: reason,
                observation: Some(observation),
                candidates: traces,
            },
        ),
        ..t
    }
}

/// The turn ended by a message.
pub open spec fn ended(t: TurnView, m: ContentView, finish: Option<Seq<char>>) -> TurnView {
    TurnView { final_content: Some(m), finish_reason: finish, ..with_message(t, m) }
}

/// What planning goes by after a reply.
pub open spec fn plan_input(t: TurnView, reply: LlmReply, uuids: Seq<[u8; 16]>) -> PlanInput {
    PlanInput {
        session_id: t.frame.session_id,
        parts: reply_parts(reply),
        uuids,
        probe_history: t.frame.probe_history,
        limit: t.frame.limit,
    }
}

/// What the engine commits to after a reply.
pub open spec fn commitment(t: TurnView, reply: LlmReply, uuids: Seq<[u8; 16]>) -> SelectionView {
    plan::selection_of(
        plan::candidates_of(plan_input(t, reply, uuids)),
        t.state,
        t.frame.max_calls,
    )
}

/// The parts of a reply; a reply without content counts as one empty text.
pub open spec fn reply_parts(reply: LlmReply) -> Seq<PartView> {
    match reply.content {
        Some(m) => m@.parts,
        None => seq![PartView::Text { text: ""@ }],
    }
}

/// The name of an optional finish reason.
pub open spec fn opt_finish(reason: Option<stream::FinishReason>) -> Option<Seq<char>> {
    match reason {
        Some(f) => Some(stream::finish_reason_text(f)),
        None => None,
    }
}

/// The turn after a reply of the model. At most one action is committed to: an answer or a question
/// ends the turn, a call is put on the transcript and waits for its outcome.
pub open spec fn after_reply(t: TurnView, reply: LlmReply, uuids: Seq<[u8; 16]>) -> TurnView {
    let sel = commitment(t, reply, uuids);
    let next = TurnView {
        iterations: t.iterations + 1,
        finish_reason: opt_finish(reply.finish_reason),
        ..t
    };
    match sel.action {
        ActionView::Answer { text } => ended(
            with_step(next, sel.preview, sel.reason, "returned final answer"@, sel.traces),
            content::text_message("model"@, text),
            next.finish_reason,
        ),
        ActionView::AskUser { question } => ended(
            with_step(next, sel.preview, sel.reason, "asking user for clarification"@, sel.traces),
            content::text_message("model"@, question),
            Some("need_user"@),
        ),
        ActionView::CallTool(call) => TurnView {
            pending: Some(
                PendingView { call, preview: sel.preview, reason: sel.reason, traces: sel.traces },
            ),
            ..with_message(next, util::call_message(call))
        },
    }
}

/// The output that stands for a failed call.
pub open spec fn failure_output(message: Seq<char>) -> Seq<char> {
    "{\"message\":"@ + encoding::json_string(message) + ",\"status\":\"error\"}"@
}

/// What is recorded of a call with its outcome.
pub open spec fn call_trace(call: CallView, outcome: Result<String, String>) -> CallTraceView {
    CallTraceView {
        function_call_id: call.function_call_id,
        name: call.name,
        args: call.args,
        status: if outcome is Ok {
            "ok"@
        } else {
            "error"@
        },
        output: match outcome {
            Ok(output) => output@,
            Err(message) => failure_output(message@),
        },
    }
}

/// What is noted of the outcome of a call.
pub open spec fn call_observation(trace: CallTraceView, failed: bool) -> Seq<char> {
    if failed {
        "tool failed: "@ + util::preview_of(util::json_line(trace.output), 160)
    } else {
        "tool completed successfully: "@ + util::preview_of(util::json_line(trace.output), 160)
    }
}

/// The message that answers a call.
pub open spec fn call_answer(trace: CallTraceView) -> ContentView {
    ContentView {
        role: "tool"@,
        parts: seq![
            PartView::FunctionResponse {
                name: trace.name,
                response: trace.output,
                id: Some(trace.function_call_id),
            },
        ],
    }
}

/// A call and what came of it on one short line.
pub open spec fn observation_line(trace: CallTraceView) -> Seq<char> {
    trace.name + " => "@ + util::preview_of(util::json_line(trace.output), 120)
}

/// What the user is told where no answer was found: the reason, and the last two calls, the latest
/// first.
pub open spec fn fallback_text(reason: Seq<char>, traces: Seq<CallTraceView>) -> Seq<char> {
    let n = traces.len() as int;
    if n == 0 {
        "I stopped because "@ + reason + ". Please clarify the next objective."@
    } else {
        "I stopped because "@ + reason + ". Recent tool observations: "@ + if n == 1 {
            observation_line(traces[0])
        } else {
            observation_line(traces[n - 1]) + "; "@ + observation_line(traces[n - 2])
        }
    }
}

/// The turn after the outcome of the pending call. When the failures reach the budget the turn
/// ends.
pub open spec fn after_tool(t: TurnView, outcome: Result<String, String>) -> TurnView {
    let p = t.pending->Some_0;
    let trace = call_trace(p.call, outcome);
    let errors: nat = if outcome is Err {
        t.state.errors + 1
    } else {
        t.state.errors
    };
    let noted = TurnView {
        state: StateView {
            executed: t.state.executed + 1,
            errors,
            recent: state::remembered(t.state.recent, plan::call_signature(p.call)),
        },
        tool_calls: t.tool_calls.push(trace),
        pending: None,
        ..with_message(t, call_answer(trace))
    };
    let next = with_step(
        noted,
        p.preview,
        p.reason,
        call_observation(trace, outcome is Err),
        p.traces,
    );
    if errors >= t.frame.error_budget {
        ended(
            next,
            content::text_message(
                "model"@,
                fallback_text(
                    "error budget exhausted before the turn converged"@,
                    next.tool_calls,
                ),
            ),
            Some("error_budget"@),
        )
    } else {
        next
    }
}

/// The turn after the model was asked for a final answer.
pub open spec fn after_synthesis(t: TurnView, answer: Option<ContentView>) -> TurnView {
    ended(
        t,
        match answer {
            Some(m) => m,
            None => content::text_message(
                "model"@,
                fallback_text(
                    "max_iterations reached before selecting a final answer"@,
                    t.tool_calls,
                ),
            ),
        },
        Some("max_iterations"@),
    )
}

/// How many of the calls failed.
pub open spec fn failures(traces: Seq<CallTraceView>) -> nat
    decreases traces.len(),
{
    if traces.len() == 0 {
        0
    } else {
        failures(traces.drop_last()) + if traces.last().status == "error"@ {
            1nat
        } else {
            0
        }
    }
}

/// What holds of a turn at every moment.
pub open spec fn well_kept(t: TurnView) -> bool {
    let waiting: nat = if t.pending is Some {
        1
    } else {
        0
    };
    let closed: nat = if t.final_content is Some {
        1
    } else {
        0
    };
    &&& t.frame.limit > 0
    &&& t.iterations <= t.frame.max_iterations
    &&& t.steps.len() + waiting == t.iterations
    &&& forall|i: int| 0 <= i < t.steps.len() ==> (#[trigger] t.steps[i]).iteration == i + 1
    &&& t.tool_calls.len() == t.state.executed
    &&& t.state.errors == failures(t.tool_calls)
    &&& t.state.errors <= t.state.executed
    &&& t.state.executed + waiting <= t.iterations
    &&& t.final_content is None ==> t.state.executed + waiting == t.iterations
    &&& t.final_content is None && t.state.executed > 0 ==> t.state.errors < t.frame.error_budget
    &&& t.turn_messages.len() == 1 + 2 * t.state.executed + waiting + closed
    &&& t.final_content matches Some(m) ==> t.pending is None && t.turn_messages.last() == m
}

impl Turn {
    /// What the turn waits for.
    pub fn next_step(&self) -> (r: TurnStep)
        ensures
            r == step_of(self@),
    {
        if self.final_content.is_some() {
            TurnStep::Done
        } else if self.pending.is_some() {
            TurnStep::RunTool
        } else if self.iterations < self.max_iterations {
            TurnStep::AskModel
        } else {
            TurnStep::Synthesize
        }
    }

    fn push_message(&mut self, m: Content)
        ensures
            final(self)@ == with_message(old(self)@, m@),
            final(self).state == old(self).state,
    {
        let ghost before = self@;
        let copy = m.clone();
        self.transcript.push(copy);
        self.turn_messages.push(m);
        assert(self@.transcript =~= before.transcript.push(m@));
        assert(self@.turn_messages =~= before.turn_messages.push(m@));
    }

    fn push_step(
        &mut self,
        preview: String,
        reason: String,
        observation: String,
        traces: Vec<PlanningCandidateTrace>,
    )
        ensures
            final(self)@ == with_step(
                old(self)@,
                preview@,
                reason@,
                observation@,
                plan::candidate_traces_view(traces@),
            ),
    {
        let ghost before = self@;
        let step = PlanningStepTrace {
            iteration: self.iterations,
            selected_action: preview,
            selection_reason: reason,
            observation: Some(observation),
            candidates: traces,
        };
        self.planning_steps.push(step);
        assert(self@.steps =~= before.steps.push(step@));
    }

    fn end_with(&mut self, m: Content, finish: Option<String>)
        ensures
            final(self)@ == ended(old(self)@, m@, text::opt_view(finish)),
    {
        let copy = m.clone();
        self.push_message(m);
        self.final_content = Some(copy);
        self.finish_reason = finish;
    }

    /// Takes in a reply of the model; `uuids` holds one UUID for each part of the reply and one
    /// for a look into the history.
    pub fn on_reply_with(&mut self, reply: &LlmReply, uuids: &Vec<[u8; 16]>)
        requires
            well_kept(old(self)@),
            step_of(old(self)@) is AskModel,
            uuids@.len() == reply_parts(*reply).len() + 1,
        ensures
            final(self)@ == after_reply(old(self)@, *reply, uuids@),
            well_kept(final(self)@),
    {
        let ghost before = self@;
        let model_content = match &reply.content {
            Some(m) => m.clone(),
            None => Content::text("model", ""),
        };
        assert(model_content@.parts =~= reply_parts(*reply));
        self.iterations = self.iterations + 1;
        self.finish_reason = match &reply.finish_reason {
            Some(reason) => Some(stream::finish_reason_to_string(reason)),
            None => None,
        };
        let candidates = plan::plan_candidates(
            self.session_id.as_str(),
            &model_content,
            uuids,
            self.probe_history,
            self.planner_candidate_limit,
        );
        let selection = plan::select_action(
            candidates,
            &self.state,
            self.max_tool_calls_per_turn,
        );
        assert(selection@ == commitment(before, *reply, uuids@));
        let plan::SelectedAction { action, selected_preview, selection_reason, candidate_traces } =
            selection;
        match action {
            PlannedAction::Answer { text } => {
                self.push_step(
                    selected_preview,
                    selection_reason,
                    "returned final answer".to_owned(),
                    candidate_traces,
                );
                let finish = text::copy_opt(&self.finish_reason);
                self.end_with(Content::text("model", text.as_str()), finish);
            },
            PlannedAction::AskUser { question } => {
                self.push_step(
                    selected_preview,
                    selection_reason,
                    "asking user for clarification".to_owned(),
                    candidate_traces,
                );
                self.end_with(
                    Content::text("model", question.as_str()),
                    Some("need_user".to_owned()),
                );
            },
            PlannedAction::CallTool(call) => {
                self.push_message(util::build_model_tool_call_content(&call));
                self.pending = Some(
                    PendingCall { call, selected_preview, selection_reason, candidate_traces },
                );
            },
        }
        proof {
            law_reply_keeps_order(before, *reply, uuids@);
        }
    }

    /// Takes in a reply of the model.
    pub fn on_reply(&mut self, reply: &LlmReply)
        requires
            well_kept(old(self)@),
            step_of(old(self)@) is AskModel,
            reply_parts(*reply).len() < usize::MAX,
        ensures
            exists|uuids: Seq<[u8; 16]>|
                #![trigger after_reply(old(self)@, *reply, uuids)]
                uuids.len() == reply_parts(*reply).len() + 1 && (forall|i: int|
                    0 <= i < uuids.len() ==> encoding::is_uuid_v4(#[trigger] uuids[i]@))
                    && final(self)@ == after_reply(old(self)@, *reply, uuids),
            well_kept(final(self)@),
    {
        let n: usize = match &reply.content {
            Some(m) => m.parts.len(),
            None => 1,
        };
        let uuids = util::fresh_uuids(n + 1);
        self.on_reply_with(reply, &uuids);
    }

    /// The call that the turn waits for, as a tool is asked to run it.
    pub fn dispatch_tool_call(&self) -> (r: ToolExecutionRequest)
        requires
            step_of(self@) is RunTool,
        ensures
            r.app_name@ == self.app_name@,
            r.user_id@ == self.user_id@,
            r.session_id@ == self.session_id@,
            r.invocation_id@ == self.invocation_id@,
            r.function_call_id@ == self@.pending->Some_0.call.function_call_id,
            r.tool_name@ == self@.pending->Some_0.call.name,
            r.args@ == self@.pending->Some_0.call.args,
            r.user_content@ == content::text_message("user"@, self.message@),
    {
        let pending = self.pending.as_ref().unwrap();
        ToolExecutionRequest {
            app_name: self.app_name.clone(),
            user_id: self.user_id.clone(),
            session_id: self.session_id.clone(),
            invocation_id: self.invocation_id.clone(),
            function_call_id: pending.call.function_call_id.clone(),
            tool_name: pending.call.name.clone(),
            args: pending.call.args.clone(),
            user_content: Content::text("user", self.message.as_str()),
        }
    }

    /// Takes in the outcome of the pending call: what the tool gave back, as JSON text, or why it
    /// failed.
    pub fn on_tool_result(&mut self, outcome: &Result<String, String>)
        requires
            well_kept(old(self)@),
            step_of(old(self)@) is RunTool,
        ensures
            final(self)@ == after_tool(old(self)@, *outcome),
            well_kept(final(self)@),
    {
        let ghost before = self@;
        let taken = self.pending.take();
        let pending = taken.unwrap();
        let PendingCall { call, selected_preview, selection_reason, candidate_traces } = pending;
        let signature = util::tool_call_signature(call.name.as_str(), call.args.as_str());
        self.state.tool_calls_executed = self.state.tool_calls_executed + 1;
        self.state.push_tool_signature(signature);
        let (status, output, verdict) = match outcome {
            Ok(output) => ("ok".to_owned(), output.clone(), "tool completed successfully: "),
            Err(message) => {
                self.state.tool_errors = self.state.tool_errors + 1;
                let payload = text::cat3(
                    "{\"message\":",
                    outside::json_quote(message.as_str()).as_str(),
                    ",\"status\":\"error\"}",
                );
                ("error".to_owned(), payload, "tool failed: ")
            },
        };
        let observation = text::cat(verdict, util::preview_json(output.as_str(), 160).as_str());
        let trace = ToolCallTrace {
            function_call_id: call.function_call_id.clone(),
            name: call.name.clone(),
            args: call.args.clone(),
            status,
            output,
        };
        assert(trace@ == call_trace(call@, *outcome));
        let part = Part::FunctionResponse {
            name: trace.name.clone(),
            response: trace.output.clone(),
            id: Some(trace.function_call_id.clone()),
        };
        let answer = Content { role: "tool".to_owned(), parts: vec![part] };
        assert(answer@.parts =~= seq![part@]);
        self.push_message(answer);
        let ghost traces = call_traces_view(self.tool_calls@);
        self.tool_calls.push(trace);
        assert(call_traces_view(self.tool_calls@) =~= traces.push(trace@));
        self.push_step(selected_preview, selection_reason, observation, candidate_traces);
        if self.state.tool_errors >= self.error_budget {
            let content = build_fallback_content(
                "error budget exhausted before the turn converged",
                &self.tool_calls,
            );
            self.end_with(content, Some("error_budget".to_owned()));
        }
        proof {
            law_tool_keeps_order(before, *outcome);
        }
    }

    /// Takes in the final answer that the model was asked for, where it gave one.
    pub fn on_synthesis(&mut self, answer: Option<Content>)
        requires
            well_kept(old(self)@),
            step_of(old(self)@) is Synthesize,
        ensures
            final(self)@ == after_synthesis(old(self)@, stream::opt_content(answer)),
            well_kept(final(self)@),
    {
        let content = match answer {
            Some(m) => m,
            None => build_fallback_content(
                "max_iterations reached before selecting a final answer",
                &self.tool_calls,
            ),
        };
        let ghost before = self@;
        self.end_with(content, Some("max_iterations".to_owned()));
        proof {
            law_synthesis_ends_turn(before, stream::opt_content(answer));
        }
    }

    /// The response of a turn that has ended; `stored_count` is how many messages the session
    /// holds after the turn was stored.
    pub fn finish(self, stored_count: usize) -> (r: ChatTurnResponse)
        requires
            step_of(self@) is Done,
        ensures
            r@ == response_of(self@, stored_count as nat),
            r.tool_calls == self.tool_calls,
            r.planning_steps == self.planning_steps,
    {
        let answer = match &self.final_content {
            Some(m) => util::extract_text(m),
            None => String::new(),
        };
        let count: usize = if self.persist {
            stored_count
        } else {
            self.turn_messages.len()
        };
        let turn_messages = MessageView::of_all(&self.turn_messages, 0);
        assert(self@.turn_messages.skip(0) =~= self@.turn_messages);
        ChatTurnResponse {
            session_id: self.session_id,
            user_id: self.user_id,
            answer,
            finish_reason: self.finish_reason,
            iterations: self.iterations,
            tool_calls: self.tool_calls,
            planning_steps: self.planning_steps,
            turn_messages,
            session_message_count: count,
        }
    }
}

/// What a caller gets back for a turn.
#[derive(Debug)]
pub struct ChatTurnResponse {
    pub session_id: String,
    pub user_id: String,
    pub answer: String,
    pub finish_reason: Option<String>,
    pub iterations: usize,
    pub tool_calls: Vec<ToolCallTrace>,
    pub planning_steps: Vec<PlanningStepTrace>,
    pub turn_messages: Vec<MessageView>,
    pub session_message_count: usize,
}

/// The contents of a response.
#[verifier::ext_equal]
pub struct ResponseView {
    pub session_id: Seq<char>,
    pub user_id: Seq<char>,
    pub answer: Seq<char>,
    pub finish_reason: Option<Seq<char>>,
    pub iterations: nat,
    pub tool_calls: Seq<CallTraceView>,
    pub planning_steps: Seq<StepTraceView>,
    pub turn_messages: Seq<ShownMessage>,
    pub session_message_count: nat,
}

impl View for ChatTurnResponse {
    type V = ResponseView;

    open spec fn view(&self) -> ResponseView {
        ResponseView {
            session_id: self.session_id@,
            user_id: self.user_id@,
            answer: self.answer@,
            finish_reason: text::opt_view(self.finish_reason),
            iterations: self.iterations as nat,
            tool_calls: call_traces_view(self.tool_calls@),
            planning_steps: step_traces_view(self.planning_steps@),
            turn_messages: session_store::message_views(self.turn_messages@),
            session_message_count: self.session_message_count as nat,
        }
    }
}

/// The response of a turn that has ended. A turn that is not stored counts its own messages.
pub open spec fn response_of(t: TurnView, stored_count: nat) -> ResponseView {
    ResponseView {
        session_id: t.frame.session_id,
        user_id: t.frame.user_id,
        answer: text::trimmed(util::text_of(t.final_content->Some_0.parts)),
        finish_reason: t.finish_reason,
        iterations: t.iterations,
        tool_calls: t.tool_calls,
        planning_steps: t.steps,
        turn_messages: session_store::shown_all(t.turn_messages),
        session_message_count: if t.frame.persist {
            stored_count
        } else {
            t.turn_messages.len()
        },
    }
}

/// The messages of a session after a turn: those of the turn follow what stood there before, where
/// the turn is to be stored and belongs to the session.
pub open spec fn messages_after(
    before: Seq<ContentView>,
    t: TurnView,
    id: Seq<char>,
) -> Seq<ContentView> {
    if t.frame.persist && id == t.frame.session_id {
        before + t.turn_messages
    } else {
        before
    }
}

/// The identifiers of the sessions after a turn.
pub open spec fn ids_after(before: Seq<Seq<char>>, t: TurnView) -> Seq<Seq<char>> {
    if t.frame.persist {
        session_store::with_id(before, t.frame.session_id)
    } else {
        before
    }
}

/// Stores the messages of a turn that has ended, where it is to be stored, and gives its response.
pub fn store_turn(store: &mut SessionStore, turn: Turn) -> (r: ChatTurnResponse)
    requires
        old(store).wf(),
        step_of(turn@) is Done,
    ensures
        final(store).wf(),
        forall|id: Seq<char>| #[trigger]
            final(store).messages(id) == messages_after(old(store).messages(id), turn@, id),
        final(store).ids() == ids_after(old(store).ids(), turn@),
        r@ == response_of(turn@, final(store).messages(turn.session_id@).len()),
{
    if turn.persist {
        store.append_many(turn.session_id.as_str(), &turn.turn_messages);
    }
    let count: usize = store.session_message_count(turn.session_id.as_str());
    turn.finish(count)
}

/// Ends a turn, however it went: one that came to its end is stored, where it is to be stored, and
/// answered; one that broke off leaves the store as it is, whatever its tools did before.
pub fn conclude_turn(store: &mut SessionStore, held: Result<Turn, String>) -> (r: Result<
    ChatTurnResponse,
    String,
>)
    requires
        old(store).wf(),
        held matches Ok(turn) ==> step_of(turn@) is Done,
    ensures
        final(store).wf(),
        match held {
            Ok(turn) => {
                &&& r is Ok
                &&& forall|id: Seq<char>| #[trigger]
                    final(store).messages(id) == messages_after(old(store).messages(id), turn@, id)
                &&& final(store).ids() == ids_after(old(store).ids(), turn@)
                &&& r->Ok_0@ == response_of(turn@, final(store).messages(turn.session_id@).len())
            },
            Err(message) => r == Err::<ChatTurnResponse, String>(message) && *final(store) == *old(
                store,
            ),
        },
{
    match held {
        Ok(turn) => Ok(store_turn(store, turn)),
        Err(message) => Err(message),
    }
}

/// The messages of a turn that was stored are read back behind those that stood there before, and
/// their number is what its response tells; a turn that was not stored leaves no trace and counts
/// its own messages.
pub proof fn law_stored_turn_is_read_back(before: Seq<ContentView>, t: TurnView)
    requires
        step_of(t) is Done,
    ensures
        ({
            let after = messages_after(before, t, t.frame.session_id);
            let r = response_of(t, after.len());
            &&& t.frame.persist ==> {
                &&& after.take(before.len() as int) == before
                &&& after.skip(before.len() as int) == t.turn_messages
                &&& r.turn_messages == session_store::shown_all(after.skip(before.len() as int))
                &&& r.session_message_count == before.len() + r.turn_messages.len()
            }
            &&& !t.frame.persist ==> {
                &&& after == before
                &&& r.session_message_count == r.turn_messages.len()
            }
        }),
        forall|id: Seq<char>|
            id != t.frame.session_id ==> #[trigger] messages_after(before, t, id) == before,
{
    let after = messages_after(before, t, t.frame.session_id);
    if t.frame.persist {
        assert(after.take(before.len() as int) =~= before);
        assert(after.skip(before.len() as int) =~= t.turn_messages);
    }
}

fn observation_of(trace: &ToolCallTrace) -> (r: String)
    ensures
        r@ == observation_line(trace@),
{
    text::cat3(
        trace.name.as_str(),
        " => ",
        util::preview_json(trace.output.as_str(), 120).as_str(),
    )
}

/// Tells the user that no answer was found, why, and what the last calls gave.
pub fn build_fallback_content(reason: &str, tool_traces: &Vec<ToolCallTrace>) -> (r: Content)
    ensures
        r@ == content::text_message("model"@, fallback_text(reason@, call_traces_view(tool_traces@))),
{
    let n: usize = tool_traces.len();
    let summary = if n == 0 {
        text::cat3("I stopped because ", reason, ". Please clarify the next objective.")
    } else {
        let latest = observation_of(&tool_traces[n - 1]);
        let recent = if n == 1 {
            latest
        } else {
            text::cat3(latest.as_str(), "; ", observation_of(&tool_traces[n - 2]).as_str())
        };
        text::cat4("I stopped because ", reason, ". Recent tool observations: ", recent.as_str())
    };
    Content::text("model", summary.as_str())
}

proof fn lemma_failures_push(traces: Seq<CallTraceView>, trace: CallTraceView)
    ensures
        failures(traces.push(trace)) == failures(traces) + if trace.status == "error"@ {
            1nat
        } else {
            0
        },
{
    assert(traces.push(trace).drop_last() =~= traces);
}

/// A reply of the model keeps a turn in order.
pub proof fn law_reply_keeps_order(t: TurnView, reply: LlmReply, uuids: Seq<[u8; 16]>)
    requires
        well_kept(t),
        step_of(t) is AskModel,
    ensures
        well_kept(after_reply(t, reply, uuids)),
        after_reply(t, reply, uuids).frame == t.frame,
{
}

/// The outcome of a call keeps a turn in order.
pub proof fn law_tool_keeps_order(t: TurnView, outcome: Result<String, String>)
    requires
        well_kept(t),
        step_of(t) is RunTool,
    ensures
        well_kept(after_tool(t, outcome)),
        after_tool(t, outcome).frame == t.frame,
{
    let trace = call_trace(t.pending->Some_0.call, outcome);
    lemma_failures_push(t.tool_calls, trace);
    reveal_strlit("ok");
    reveal_strlit("error");
    assert("ok"@.len() != "error"@.len());
}

/// A final answer keeps a turn in order and ends it.
pub proof fn law_synthesis_ends_turn(t: TurnView, answer: Option<ContentView>)
    requires
        well_kept(t),
        step_of(t) is Synthesize,
    ensures
        well_kept(after_synthesis(t, answer)),
        step_of(after_synthesis(t, answer)) is Done,
        after_synthesis(t, answer).frame == t.frame,
{
}

/// How far a turn is from its end.
pub open spec fn remaining(t: TurnView) -> int {
    if t.final_content is Some {
        0
    } else if t.pending is Some {
        2 * (t.frame.max_iterations - t.iterations) + 2
    } else {
        2 * (t.frame.max_iterations - t.iterations) + 1
    }
}

/// Every event brings a turn nearer to its end, so a turn asks the model at most as often as its
/// limit allows and always ends.
pub proof fn law_turn_ends(
    t: TurnView,
    reply: LlmReply,
    uuids: Seq<[u8; 16]>,
    outcome: Result<String, String>,
    answer: Option<ContentView>,
)
    requires
        well_kept(t),
    ensures
        remaining(t) >= 0,
        remaining(t) == 0 <==> step_of(t) is Done,
        step_of(t) is AskModel ==> remaining(after_reply(t, reply, uuids)) < remaining(t),
        step_of(t) is RunTool ==> remaining(after_tool(t, outcome)) < remaining(t),
        step_of(t) is Synthesize ==> remaining(after_synthesis(t, answer)) < remaining(t),
{
}

/// Whatever is added to the transcript is added to the messages of the turn, and nothing is taken
/// away: the transcript is always what stood before the turn followed by the turn's own messages.
pub proof fn law_transcript_follows_turn(
    opening: Seq<ContentView>,
    t: TurnView,
    reply: LlmReply,
    uuids: Seq<[u8; 16]>,
    outcome: Result<String, String>,
    answer: Option<ContentView>,
)
    requires
        t.transcript == opening + t.turn_messages,
    ensures
        ({
            let a = after_reply(t, reply, uuids);
            a.transcript == opening + a.turn_messages
        }),
        ({
            let a = after_tool(t, outcome);
            a.transcript == opening + a.turn_messages
        }),
        ({
            let a = after_synthesis(t, answer);
            a.transcript == opening + a.turn_messages
        }),
{
    let a = after_reply(t, reply, uuids);
    assert(a.transcript =~= opening + a.turn_messages);
    let b = after_tool(t, outcome);
    assert(b.transcript =~= opening + b.turn_messages);
    let c = after_synthesis(t, answer);
    assert(c.transcript =~= opening + c.turn_messages);
}

/// However many calls a reply asks for, at most one is committed to, and it is run before the
/// model is asked again.
pub proof fn law_one_call_per_reply(t: TurnView, reply: LlmReply, uuids: Seq<[u8; 16]>)
    requires
        well_kept(t),
        step_of(t) is AskModel,
    ensures
        ({
            let a = after_reply(t, reply, uuids);
            &&& a.tool_calls == t.tool_calls
            &&& a.turn_messages.len() == t.turn_messages.len() + 1
            &&& a.pending is Some <==> step_of(a) is RunTool
            &&& a.pending is None <==> step_of(a) is Done
        }),
{
}

/// A turn that has ended has one record for each round of planning and one for each call, never
/// more rounds than allowed, and its answer is the text of its last message.
pub proof fn law_response_is_complete(t: TurnView, stored_count: nat)
    requires
        well_kept(t),
        step_of(t) is Done,
    ensures
        ({
            let r = response_of(t, stored_count);
            &&& r.planning_steps.len() == r.iterations
            &&& r.iterations <= t.frame.max_iterations
            &&& r.tool_calls.len() <= r.iterations
            &&& r.turn_messages.len() == 2 + 2 * r.tool_calls.len()
            &&& r.answer == r.turn_messages.last().text
        }),
{
}

/// Something that happens to a turn.
pub enum TurnEvent {
    Reply { reply: LlmReply, uuids: Seq<[u8; 16]> },
    Tool { outcome: Result<String, String> },
    Synthesis { answer: Option<ContentView> },
}

/// Whether a turn waits for an event of that kind.
pub open spec fn awaits(t: TurnView, event: TurnEvent) -> bool {
    match event {
        TurnEvent::Reply { .. } => step_of(t) is AskModel,
        TurnEvent::Tool { .. } => step_of(t) is RunTool,
        TurnEvent::Synthesis { .. } => step_of(t) is Synthesize,
    }
}

/// The turn after an event.
pub open spec fn after_event(t: TurnView, event: TurnEvent) -> TurnView {
    match event {
        TurnEvent::Reply { reply, uuids } => after_reply(t, reply, uuids),
        TurnEvent::Tool { outcome } => after_tool(t, outcome),
        TurnEvent::Synthesis { answer } => after_synthesis(t, answer),
    }
}

/// The turn after several events.
pub open spec fn played(t: TurnView, events: Seq<TurnEvent>) -> TurnView
    decreases events.len(),
{
    if events.len() == 0 {
        t
    } else {
        after_event(played(t, events.drop_last()), events.last())
    }
}

/// Whether each of several events came when it was waited for.
pub open spec fn playable(t: TurnView, events: Seq<TurnEvent>) -> bool
    decreases events.len(),
{
    events.len() == 0 || (playable(t, events.drop_last()) && awaits(
        played(t, events.drop_last()),
        events.last(),
    ))
}

/// Whatever the model, the tools and the final answer bring: a turn stays in order all the way, its
/// transcript is what stood before followed by its own messages, and it is over after a bounded
/// number of events: two for each round that is allowed, and two more at most.
pub proof fn law_every_turn_is_in_order(
    opening: Seq<ContentView>,
    t: TurnView,
    events: Seq<TurnEvent>,
)
    requires
        well_kept(t),
        t.transcript == opening + t.turn_messages,
        playable(t, events),
    ensures
        ({
            let p = played(t, events);
            &&& well_kept(p)
            &&& p.frame == t.frame
            &&& p.transcript == opening + p.turn_messages
            &&& remaining(p) + events.len() <= remaining(t)
        }),
        events.len() <= 2 * t.frame.max_iterations + 2,
    decreases events.len(),
{
    if events.len() > 0 {
        law_every_turn_is_in_order(opening, t, events.drop_last());
        let p = played(t, events.drop_last());
        match events.last() {
            TurnEvent::Reply { reply, uuids } => {
                law_reply_keeps_order(p, reply, uuids);
                law_transcript_follows_turn(opening, p, reply, uuids, arbitrary(), None);
                law_turn_ends(p, reply, uuids, arbitrary(), None);
            },
            TurnEvent::Tool { outcome } => {
                law_tool_keeps_order(p, outcome);
                law_transcript_follows_turn(opening, p, arbitrary(), Seq::empty(), outcome, None);
                law_turn_ends(p, arbitrary(), Seq::empty(), outcome, None);
            },
            TurnEvent::Synthesis { answer } => {
                law_synthesis_ends_turn(p, answer);
                law_transcript_follows_turn(
                    opening,
                    p,
                    arbitrary(),
                    Seq::empty(),
                    arbitrary(),
                    answer,
                );
                law_turn_ends(p, arbitrary(), Seq::empty(), arbitrary(), answer);
            },
        }
    }
}

/// The signatures of the calls that were run, in order.
pub open spec fn run_signatures(t: TurnView, events: Seq<TurnEvent>) -> Seq<Seq<char>>
    decreases events.len(),
{
    if events.len() == 0 {
        Seq::empty()
    } else {
        let earlier = run_signatures(t, events.drop_last());
        match events.last() {
            TurnEvent::Tool { .. } => earlier.push(
                plan::call_signature(played(t, events.drop_last()).pending->Some_0.call),
            ),
            _ => earlier,
        }
    }
}

/// What is remembered of a turn are the signatures of its latest calls, whatever happened between
/// them.
pub proof fn law_latest_calls_are_remembered(t: TurnView, events: Seq<TurnEvent>)
    requires
        t.state.recent == Seq::<Seq<char>>::empty(),
        playable(t, events),
    ensures
        played(t, events).state.recent == state::remembered_after(run_signatures(t, events)),
    decreases events.len(),
{
    if events.len() > 0 {
        law_latest_calls_are_remembered(t, events.drop_last());
        let earlier = run_signatures(t, events.drop_last());
        let p = played(t, events.drop_last());
        if let TurnEvent::Tool { .. } = events.last() {
            let signature = plan::call_signature(p.pending->Some_0.call);
            assert(earlier.push(signature).drop_last() =~= earlier);
        }
    }
}

/// A call that is committed to is neither the one just made, nor the next of two that take turns,
/// nor one too many, as long as there was anything else to do.
pub proof fn law_pending_call_is_fresh(t: TurnView, reply: LlmReply, uuids: Seq<[u8; 16]>)
    requires
        well_kept(t),
        step_of(t) is AskModel,
        leaves_choice(t, reply, uuids),
    ensures
        after_reply(t, reply, uuids).pending matches Some(p) ==> {
            &&& t.state.executed < t.frame.max_calls
            &&& !state::repeats(t.state.recent, plan::call_signature(p.call))
            &&& !state::ping_pongs(t.state.recent, plan::call_signature(p.call))
        },
{
    let cs = plan::candidates_of(plan_input(t, reply, uuids));
    plan::law_candidates_are_bounded(plan_input(t, reply, uuids));
    plan::law_committed_call_is_fresh(cs, t.state, t.frame.max_calls);
}

/// Whether a turn stands at its beginning: nothing has been asked or done yet.
pub open spec fn is_fresh(t: TurnView) -> bool {
    &&& well_kept(t)
    &&& t.iterations == 0
    &&& t.final_content is None
    &&& t.state.recent == Seq::<Seq<char>>::empty()
}

/// Whether each round on record, and the one that waits for its call, selected exactly one
/// candidate.
pub open spec fn rounds_select_one(t: TurnView) -> bool {
    &&& forall|i: int|
        0 <= i < t.steps.len() ==> plan::selects_one(
            (#[trigger] t.steps[i]).candidates,
            t.steps[i].selected_action,
            t.steps[i].selection_reason,
        )
    &&& t.pending matches Some(p) ==> plan::selects_one(p.traces, p.preview, p.reason)
}

proof fn lemma_played_is_kept(t: TurnView, events: Seq<TurnEvent>)
    requires
        well_kept(t),
        playable(t, events),
    ensures
        well_kept(played(t, events)),
        played(t, events).frame == t.frame,
    decreases events.len(),
{
    if events.len() > 0 {
        lemma_played_is_kept(t, events.drop_last());
        let p = played(t, events.drop_last());
        match events.last() {
            TurnEvent::Reply { reply, uuids } => law_reply_keeps_order(p, reply, uuids),
            TurnEvent::Tool { outcome } => law_tool_keeps_order(p, outcome),
            TurnEvent::Synthesis { answer } => law_synthesis_ends_turn(p, answer),
        }
    }
}

/// In a whole turn each round selects exactly one candidate, and its record tells of that one.
pub proof fn law_every_round_selects_one(t: TurnView, events: Seq<TurnEvent>)
    requires
        is_fresh(t),
        playable(t, events),
    ensures
        rounds_select_one(played(t, events)),
    decreases events.len(),
{
    if events.len() > 0 {
        law_every_round_selects_one(t, events.drop_last());
        lemma_played_is_kept(t, events.drop_last());
        let p = played(t, events.drop_last());
        let q = played(t, events);
        if let TurnEvent::Reply { reply, uuids } = events.last() {
            let input = plan_input(p, reply, uuids);
            plan::law_candidates_are_bounded(input);
            plan::law_one_candidate_is_selected(
                plan::candidates_of(input),
                p.state,
                p.frame.max_calls,
            );
        }
        assert forall|i: int| 0 <= i < q.steps.len() implies plan::selects_one(
            (#[trigger] q.steps[i]).candidates,
            q.steps[i].selected_action,
            q.steps[i].selection_reason,
        ) by {
            if i < p.steps.len() {
                assert(q.steps[i] == p.steps[i]);
            }
        }
    }
}

/// Whether calls failed as often as the budget allows.
pub open spec fn out_of_budget(t: TurnView) -> bool {
    t.tool_calls.len() > 0 && failures(t.tool_calls) >= t.frame.error_budget
}

/// The finish reason of a whole turn follows from its failures and its rounds. Where each round
/// made a call, the turn ran out of its budget of failures, or else of its rounds; neither holds
/// where the last round made none: then the turn ended with an answer, for the reason that the
/// model gave, or with a question to the user.
pub proof fn law_finish_reason_follows(t: TurnView, events: Seq<TurnEvent>)
    requires
        is_fresh(t),
        playable(t, events),
        step_of(played(t, events)) is Done,
    ensures
        ({
            let p = played(t, events);
            if p.tool_calls.len() == p.iterations {
                if out_of_budget(p) {
                    p.finish_reason == Some("error_budget"@)
                } else {
                    p.finish_reason == Some("max_iterations"@) && p.iterations
                        == p.frame.max_iterations
                }
            } else {
                &&& p.tool_calls.len() + 1 == p.iterations
                &&& !out_of_budget(p)
                &&& events.last() matches TurnEvent::Reply { reply, uuids } && p.finish_reason
                    == match commitment(played(t, events.drop_last()), reply, uuids).action {
                    ActionView::AskUser { .. } => Some("need_user"@),
                    _ => opt_finish(reply.finish_reason),
                }
            }
        }),
{
    lemma_played_is_kept(t, events);
    lemma_played_is_kept(t, events.drop_last());
}

/// Whether a reply leaves something to do that nothing speaks against, or a question to the user.
pub open spec fn leaves_choice(t: TurnView, reply: LlmReply, uuids: Seq<[u8; 16]>) -> bool {
    let cs = plan::candidates_of(plan_input(t, reply, uuids));
    plan::first_viable(cs, t.state, t.frame.max_calls) < cs.len() || plan::last_fallback(cs) is Some
}

/// Whether each reply of a turn leaves a choice.
pub open spec fn always_leaves_choice(t: TurnView, events: Seq<TurnEvent>) -> bool
    decreases events.len(),
{
    events.len() == 0 || (always_leaves_choice(t, events.drop_last()) && match events.last() {
        TurnEvent::Reply { reply, uuids } => leaves_choice(
            played(t, events.drop_last()),
            reply,
            uuids,
        ),
        _ => true,
    })
}

/// Whether a call may follow others: it is not the last of them again, nor the next of two that take
/// turns, nor one too many.
pub open spec fn may_follow(
    earlier: Seq<Seq<char>>,
    signature: Seq<char>,
    max_calls: nat,
) -> bool {
    &&& earlier.len() < max_calls
    &&& !state::repeats(earlier, signature)
    &&& !state::ping_pongs(earlier, signature)
}

/// In a whole turn no call repeats the one before it, none is the next of two that take turns, and
/// there are never more calls than allowed, as long as every reply leaves a choice. The same holds
/// of a call that is still to be run.
pub proof fn law_calls_of_a_turn_are_fresh(t: TurnView, events: Seq<TurnEvent>)
    requires
        is_fresh(t),
        playable(t, events),
        always_leaves_choice(t, events),
    ensures
        ({
            let made = run_signatures(t, events);
            let p = played(t, events);
            &&& made.len() == p.tool_calls.len()
            &&& made.len() <= t.frame.max_calls
            &&& forall|i: int|
                0 <= i < made.len() ==> may_follow(
                    made.take(i),
                    #[trigger] made[i],
                    t.frame.max_calls,
                )
            &&& p.pending matches Some(c) ==> may_follow(
                made,
                plan::call_signature(c.call),
                t.frame.max_calls,
            )
        }),
    decreases events.len(),
{
    if events.len() > 0 {
        law_calls_of_a_turn_are_fresh(t, events.drop_last());
        lemma_played_is_kept(t, events.drop_last());
        law_latest_calls_are_remembered(t, events.drop_last());
        let p = played(t, events.drop_last());
        let earlier = run_signatures(t, events.drop_last());
        let made = run_signatures(t, events);
        match events.last() {
            TurnEvent::Reply { reply, uuids } => {
                law_pending_call_is_fresh(p, reply, uuids);
                if let Some(c) = played(t, events).pending {
                    state::law_window_is_enough(earlier, plan::call_signature(c.call));
                }
            },
            TurnEvent::Tool { outcome } => {
                let signature = plan::call_signature(p.pending->Some_0.call);
                assert(made == earlier.push(signature));
                assert forall|i: int| 0 <= i < made.len() implies may_follow(
                    made.take(i),
                    #[trigger] made[i],
                    t.frame.max_calls,
                ) by {
                    assert(made.take(i) =~= earlier.take(i));
                    if i == earlier.len() {
                        assert(earlier.take(i) =~= earlier);
                    } else {
                        assert(made[i] == earlier[i]);
                    }
                }
            },
            TurnEvent::Synthesis { .. } => {},
        }
    }
}

/// A reply always leaves a choice where at least three candidates may be considered and the turn has
/// no more rounds than calls: of all calls only the last one and the one before it can be refused.
pub proof fn law_choice_is_left(t: TurnView, reply: LlmReply, uuids: Seq<[u8; 16]>)
    requires
        well_kept(t),
        step_of(t) is AskModel,
        t.frame.limit >= 3,
        t.frame.max_iterations <= t.frame.max_calls,
    ensures
        leaves_choice(t, reply, uuids),
{
    plan::law_three_candidates_leave_a_choice(
        plan_input(t, reply, uuids),
        t.state,
        t.frame.max_calls,
    );
}

proof fn lemma_choice_is_always_left(t: TurnView, events: Seq<TurnEvent>)
    requires
        is_fresh(t),
        playable(t, events),
        t.frame.limit >= 3,
        t.frame.max_iterations <= t.frame.max_calls,
    ensures
        always_leaves_choice(t, events),
    decreases events.len(),
{
    if events.len() > 0 {
        lemma_choice_is_always_left(t, events.drop_last());
        lemma_played_is_kept(t, events.drop_last());
        if let TurnEvent::Reply { reply, uuids } = events.last() {
            law_choice_is_left(played(t, events.drop_last()), reply, uuids);
        }
    }
}

/// In a whole turn no call repeats the one before it, none is the next of two that take turns, and
/// there are never more calls than allowed, whatever the model replies, where at least three
/// candidates may be considered and the turn has no more rounds than calls. The same holds of a call
/// that is still to be run.
pub proof fn law_calls_are_fresh_whatever_the_replies(t: TurnView, events: Seq<TurnEvent>)
    requires
        is_fresh(t),
        playable(t, events),
        t.frame.limit >= 3,
        t.frame.max_iterations <= t.frame.max_calls,
    ensures
        ({
            let made = run_signatures(t, events);
            let p = played(t, events);
            &&& made.len() == p.tool_calls.len()
            &&& made.len() <= t.frame.max_calls
            &&& forall|i: int|
                0 <= i < made.len() ==> may_follow(
                    made.take(i),
                    #[trigger] made[i],
                    t.frame.max_calls,
                )
            &&& p.pending matches Some(c) ==> may_follow(
                made,
                plan::call_signature(c.call),
                t.frame.max_calls,
            )
        }),
{
    lemma_choice_is_always_left(t, events);
    law_calls_of_a_turn_are_fresh(t, events);
}

/// The calls that the rounds of a turn committed to, in order.
pub open spec fn committed_calls(t: TurnView, events: Seq<TurnEvent>) -> Seq<CallView>
    decreases events.len(),
{
    if events.len() == 0 {
        Seq::empty()
    } else {
        let earlier = committed_calls(t, events.drop_last());
        match events.last() {
            TurnEvent::Reply { reply, uuids } => match commitment(
                played(t, events.drop_last()),
                reply,
                uuids,
            ).action {
                ActionView::CallTool(call) => earlier.push(call),
                _ => earlier,
            },
            _ => earlier,
        }
    }
}

/// Whether a record tells of a call.
pub open spec fn records(trace: CallTraceView, call: CallView) -> bool {
    &&& trace.function_call_id == call.function_call_id
    &&& trace.name == call.name
    &&& trace.args == call.args
}

/// In a whole turn every call that a round committed to is recorded under its own identifier, name
/// and arguments, in order, but for the last one as long as it waits for its outcome. The message
/// that asks for it and the message that answers it stand next to each other and carry the same, and
/// so does the record of its round.
pub proof fn law_committed_calls_are_recorded(t: TurnView, events: Seq<TurnEvent>)
    requires
        is_fresh(t),
        playable(t, events),
    ensures
        ({
            let p = played(t, events);
            let calls = committed_calls(t, events);
            let n = p.tool_calls.len() as int;
            &&& p.pending is None ==> calls.len() == n
            &&& p.pending matches Some(c) ==> {
                &&& calls.len() == n + 1
                &&& calls[n] == c.call
                &&& c.preview == plan::action_preview(ActionView::CallTool(c.call))
                &&& p.turn_messages[1 + 2 * n] == util::call_message(c.call)
            }
            &&& forall|i: int|
                #![trigger p.tool_calls[i]]
                #![trigger calls[i]]
                0 <= i < n ==> {
                    &&& records(p.tool_calls[i], calls[i])
                    &&& p.turn_messages[1 + 2 * i] == util::call_message(calls[i])
                    &&& p.turn_messages[2 + 2 * i] == call_answer(p.tool_calls[i])
                    &&& p.steps[i].selected_action == plan::action_preview(
                        ActionView::CallTool(calls[i]),
                    )
                }
            &&& run_signatures(t, events) == plan::signatures_of(calls.take(n))
        }),
    decreases events.len(),
{
    lemma_played_is_kept(t, events);
    let q = played(t, events);
    let calls = committed_calls(t, events);
    if events.len() == 0 {
        assert(run_signatures(t, events) =~= plan::signatures_of(calls.take(0)));
    } else {
        law_committed_calls_are_recorded(t, events.drop_last());
        lemma_played_is_kept(t, events.drop_last());
        let p = played(t, events.drop_last());
        let earlier = committed_calls(t, events.drop_last());
        let n = p.tool_calls.len() as int;
        let m = q.tool_calls.len() as int;
        assert forall|i: int|
            #![trigger q.tool_calls[i]]
            #![trigger calls[i]]
            0 <= i < m implies {
            &&& records(q.tool_calls[i], calls[i])
            &&& q.turn_messages[1 + 2 * i] == util::call_message(calls[i])
            &&& q.turn_messages[2 + 2 * i] == call_answer(q.tool_calls[i])
            &&& q.steps[i].selected_action == plan::action_preview(ActionView::CallTool(calls[i]))
        } by {
            assert(calls[i] == earlier[i]);
            assert(q.turn_messages[1 + 2 * i] == p.turn_messages[1 + 2 * i]);
            if i < n {
                assert(records(p.tool_calls[i], earlier[i]));
                assert(q.tool_calls[i] == p.tool_calls[i]);
                assert(q.turn_messages[2 + 2 * i] == p.turn_messages[2 + 2 * i]);
                assert(q.steps[i] == p.steps[i]);
            }
        }
        if m > n {
            assert(calls.take(m) =~= earlier.take(n).push(earlier[n]));
            assert(plan::signatures_of(calls.take(m)) =~= plan::signatures_of(
                earlier.take(n),
            ).push(plan::call_signature(earlier[n])));
        } else {
            assert(calls.take(m) =~= earlier.take(n));
        }
    }
}

/// The signature of a recorded call.
pub open spec fn trace_signature(trace: CallTraceView) -> Seq<char> {
    util::signature_of(trace.name, trace.args)
}

/// Whether no recorded call repeats the one before it, and no two calls take turns.
pub open spec fn never_circles(traces: Seq<CallTraceView>) -> bool {
    &&& forall|i: int|
        0 <= i < traces.len() - 1 ==> trace_signature(#[trigger] traces[i]) != trace_signature(
            traces[i + 1],
        )
    &&& forall|i: int|
        0 <= i < traces.len() - 3 ==> !(trace_signature(#[trigger] traces[i]) == trace_signature(
            traces[i + 2],
        ) && trace_signature(traces[i + 1]) == trace_signature(traces[i + 3]))
}

/// On record no call of a turn repeats the one before it, and no two calls take turns, whatever the
/// model replies and the tools give, where at least three candidates may be considered and the turn
/// has no more rounds than calls.
pub proof fn law_recorded_calls_never_circle(t: TurnView, events: Seq<TurnEvent>)
    requires
        is_fresh(t),
        playable(t, events),
        t.frame.limit >= 3,
        t.frame.max_iterations <= t.frame.max_calls,
    ensures
        never_circles(played(t, events).tool_calls),
{
    law_calls_are_fresh_whatever_the_replies(t, events);
    law_committed_calls_are_recorded(t, events);
    let traces = played(t, events).tool_calls;
    let made = run_signatures(t, events);
    let calls = committed_calls(t, events);
    assert forall|i: int| 0 <= i < traces.len() implies trace_signature(#[trigger] traces[i])
        == made[i] && may_follow(made.take(i), made[i], t.frame.max_calls) by {
        assert(records(traces[i], calls[i]));
        assert(made[i] == plan::call_signature(calls.take(traces.len() as int)[i]));
    }
    assert forall|i: int| 0 <= i < traces.len() - 1 implies trace_signature(#[trigger] traces[i])
        != trace_signature(traces[i + 1]) by {
        assert(trace_signature(traces[i + 1]) == made[i + 1]);
        assert(!state::repeats(made.take(i + 1), made[i + 1]));
    }
    assert forall|i: int| 0 <= i < traces.len() - 3 implies !(trace_signature(#[trigger] traces[i])
        == trace_signature(traces[i + 2]) && trace_signature(traces[i + 1]) == trace_signature(
        traces[i + 3],
    )) by {
        assert(trace_signature(traces[i]) != trace_signature(traces[i + 1]));
        assert(trace_signature(traces[i + 3]) == made[i + 3]);
        assert(!state::ping_pongs(made.take(i + 3), made[i + 3]));
        let h = made.take(i + 3);
        assert(h[i] == made[i] && h[i + 1] == made[i + 1] && h[i + 2] == made[i + 2]);
    }
}

} // verus!
