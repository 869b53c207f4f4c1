//! The iterative plan-execute engine.

use vstd::prelude::*;
use vstd::string::*;

use crate::encoding;
use crate::engine::content::{Content, ContentView};
use crate::engine::state::{StateView, TurnState};
use crate::engine::turn::{Turn, TurnEvent, TurnFrame, TurnView};
use crate::number;
use crate::outside;
use crate::text;
use crate::tools;
use crate::tools::{Tool, ToolDescriptor, ToolExecutionRequest, ToolRegistry};

pub mod content;
pub mod plan;
pub mod state;
pub mod stream;
pub mod turn;
pub mod util;

verus! {

/// How many candidates are considered in one round.
pub const DEFAULT_PLANNER_CANDIDATE_LIMIT: usize = 3;

/// How many failed calls end a turn.
pub const DEFAULT_ERROR_BUDGET: usize = 2;

/// A message of the user, and how it is to be handled.
#[derive(Debug)]
pub struct ChatTurnRequest {
    pub session_id: String,
    pub user_id: String,
    pub message: String,
    pub system_prompt: Option<String>,
    pub max_iterations: Option<usize>,
    pub persist: bool,
}

/// The settings of the engine, and the tools on offer.
#[derive(Debug)]
pub struct ToolCallEngine {
    pub app_name: String,
    pub registry: ToolRegistry,
    pub default_system_prompt: String,
    pub max_iterations: usize,
    pub max_tool_calls_per_turn: usize,
    pub planner_candidate_limit: usize,
    pub error_budget: usize,
}

/// The system prompt that tells the model how the engine works.
pub open spec fn planner_prompt(base: Seq<char>, limit: nat) -> Seq<char> {
    base
        + "\n\nLoop policy:\n- Work as an iterative plan-execute-observe loop.\n- Plan only the next action, never a long chain.\n- Consider up to "@
        + number::decimal(limit)
        + " immediate next-step directions before committing one.\n- Commit at most one tool call per iteration.\n- After each tool result, re-plan from the updated transcript.\n- Avoid repeating the same tool with the same arguments.\n- Only return a final answer when you have verified the result is correct and meaningful, not just that a command ran successfully.\n- If a tool result is an error or indicates service unavailability, try a different approach rather than returning that as the answer.\n- Do not spend turns probing whether curl, wget, nc, python, or similar binaries exist unless the user explicitly asked to debug the server environment.\n- If more user input is required, ask one concise clarification question.\n- If the answer is ready, return the final answer directly."@
}

/// The base of the system prompt: the one asked for, where it is not blank.
pub open spec fn base_prompt(request: ChatTurnRequest, default_prompt: Seq<char>) -> Seq<char> {
    match tools::filled(request.system_prompt) {
        Some(prompt) => prompt,
        None => default_prompt,
    }
}

impl ToolCallEngine {
    /// The engine's invariant.
    pub open spec fn wf(&self) -> bool {
        &&& self.registry.wf()
        &&& self.planner_candidate_limit > 0
    }

    /// An engine with the default limits.
    pub fn new(
        app_name: String,
        registry: ToolRegistry,
        default_system_prompt: String,
        max_iterations: usize,
    ) -> (r: Self)
        requires
            registry.wf(),
        ensures
            r.wf(),
            r.app_name == app_name,
            r.registry == registry,
            r.default_system_prompt == default_system_prompt,
            r.max_iterations == max_iterations,
            r.max_tool_calls_per_turn == max_iterations,
            r.planner_candidate_limit == DEFAULT_PLANNER_CANDIDATE_LIMIT,
            r.error_budget == DEFAULT_ERROR_BUDGET,
    {
        ToolCallEngine {
            app_name,
            registry,
            default_system_prompt,
            max_iterations,
            max_tool_calls_per_turn: max_iterations,
            planner_candidate_limit: DEFAULT_PLANNER_CANDIDATE_LIMIT,
            error_budget: DEFAULT_ERROR_BUDGET,
        }
    }

    /// What callers are told of the tools, by name.
    pub fn tools(&self) -> (r: Vec<ToolDescriptor>)
        ensures
            exists|order: Seq<Tool>|
                #![trigger tools::describe_all(r@, order)]
                tools::describe_all(r@, order) && tools::sorted_by_name(order)
                    && order.to_multiset() == self.registry@.to_multiset(),
    {
        self.registry.descriptors()
    }

    /// Whether a request asks for a call outside any conversation, under the identifiers made from
    /// two UUIDs.
    pub open spec fn asks_directly(
        &self,
        r: ToolExecutionRequest,
        user_id: Seq<char>,
        session_id: Seq<char>,
        tool_name: Seq<char>,
        args: Seq<char>,
        invocation: Seq<u8>,
        call: Seq<u8>,
    ) -> bool {
        &&& r.app_name@ == self.app_name@
        &&& r.user_id@ == user_id
        &&& r.session_id@ == session_id
        &&& r.invocation_id@ == encoding::uuid_text(invocation)
        &&& r.function_call_id@ == encoding::uuid_text(call)
        &&& r.tool_name@ == tool_name
        &&& r.args@ == args
        &&& r.user_content@ == content::text_message("user"@, "direct tool invocation"@)
    }

    /// A call that was asked for outside any conversation, under the identifiers made from two
    /// UUIDs.
    pub fn invoke_tool_with(
        &self,
        user_id: String,
        session_id: String,
        tool_name: String,
        args: String,
        invocation: &[u8; 16],
        call: &[u8; 16],
    ) -> (r: ToolExecutionRequest)
        ensures
            self.asks_directly(
                r,
                user_id@,
                session_id@,
                tool_name@,
                args@,
                invocation@,
                call@,
            ),
    {
        ToolExecutionRequest {
            app_name: self.app_name.clone(),
            user_id,
            session_id,
            invocation_id: outside::uuid_to_text(invocation),
            function_call_id: outside::uuid_to_text(call),
            tool_name,
            args,
            user_content: Content::text("user", "direct tool invocation"),
        }
    }

    /// A call that was asked for outside any conversation, under two fresh identifiers.
    pub fn invoke_tool(
        &self,
        user_id: String,
        session_id: String,
        tool_name: String,
        args: String,
    ) -> (r: ToolExecutionRequest)
        ensures
            exists|invocation: Seq<u8>, call: Seq<u8>|
                encoding::is_uuid_v4(invocation) && encoding::is_uuid_v4(call)
                    && #[trigger] self.asks_directly(
                    r,
                    user_id@,
                    session_id@,
                    tool_name@,
                    args@,
                    invocation,
                    call,
                ),
    {
        let invocation = outside::new_uuid();
        let call = outside::new_uuid();
        self.invoke_tool_with(user_id, session_id, tool_name, args, &invocation, &call)
    }

    /// The system prompt for the planner.
    pub fn build_planner_system_prompt(&self, base: &str) -> (r: String)
        ensures
            r@ == planner_prompt(base@, self.planner_candidate_limit as nat),
    {
        text::cat4(
            base,
            "\n\nLoop policy:\n- Work as an iterative plan-execute-observe loop.\n- Plan only the next action, never a long chain.\n- Consider up to ",
            number::decimal_text(self.planner_candidate_limit as u64).as_str(),
            " immediate next-step directions before committing one.\n- Commit at most one tool call per iteration.\n- After each tool result, re-plan from the updated transcript.\n- Avoid repeating the same tool with the same arguments.\n- Only return a final answer when you have verified the result is correct and meaningful, not just that a command ran successfully.\n- If a tool result is an error or indicates service unavailability, try a different approach rather than returning that as the answer.\n- Do not spend turns probing whether curl, wget, nc, python, or similar binaries exist unless the user explicitly asked to debug the server environment.\n- If more user input is required, ask one concise clarification question.\n- If the answer is ready, return the final answer directly.",
        )
    }

    /// The turn at its beginning, under the invocation identifier made from a UUID.
    pub open spec fn begun(
        &self,
        request: ChatTurnRequest,
        prior: Seq<ContentView>,
        uuid: Seq<u8>,
    ) -> TurnView {
        let system = content::text_message(
            "system"@,
            planner_prompt(
                base_prompt(request, self.default_system_prompt@),
                self.planner_candidate_limit as nat,
            ),
        );
        let user = content::text_message("user"@, request.message@);
        TurnView {
            frame: TurnFrame {
                app_name: self.app_name@,
                session_id: request.session_id@,
                user_id: request.user_id@,
                message: request.message@,
                persist: request.persist,
                invocation_id: encoding::uuid_text(uuid),
                max_iterations: match request.max_iterations {
                    Some(n) => n as nat,
                    None => self.max_iterations as nat,
                },
                max_calls: self.max_tool_calls_per_turn as nat,
                limit: self.planner_candidate_limit as nat,
                error_budget: self.error_budget as nat,
                probe_history: prior.len() > 0 && tools::offers(
                    self.registry@,
                    "sessions_history"@,
                ),
            },
            transcript: seq![system] + prior + seq![user],
            turn_messages: seq![user],
            tool_calls: Seq::empty(),
            steps: Seq::empty(),
            state: StateView { executed: 0, errors: 0, recent: Seq::empty() },
            iterations: 0,
            finish_reason: None,
            pending: None,
            final_content: None,
        }
    }

    /// Begins a turn: the system prompt, the earlier messages of the session and the user's.
    pub fn begin_turn_with(
        &self,
        request: &ChatTurnRequest,
        prior_messages: Vec<Content>,
        uuid: &[u8; 16],
    ) -> (r: Turn)
        requires
            self.wf(),
        ensures
            r@ == self.begun(*request, content::contents_view(prior_messages@), uuid@),
            turn::well_kept(r@),
    {
        let ghost prior = content::contents_view(prior_messages@);
        let has_prior = prior_messages.len() > 0;
        let base = match tools::keep_filled(&request.system_prompt) {
            Some(prompt) => prompt,
            None => self.default_system_prompt.clone(),
        };
        let system = Content::text(
            "system",
            self.build_planner_system_prompt(base.as_str()).as_str(),
        );
        let user = Content::text("user", request.message.as_str());
        let user_copy = user.clone();
        let mut transcript = prior_messages;
        transcript.insert(0, system);
        transcript.push(user_copy);
        assert(content::contents_view(transcript@) =~= seq![system@] + prior + seq![user@]);
        let r = Turn {
            app_name: self.app_name.clone(),
            session_id: request.session_id.clone(),
            user_id: request.user_id.clone(),
            message: request.message.clone(),
            persist: request.persist,
            invocation_id: outside::uuid_to_text(uuid),
            max_iterations: match request.max_iterations {
                Some(n) => n,
                None => self.max_iterations,
            },
            max_tool_calls_per_turn: self.max_tool_calls_per_turn,
            planner_candidate_limit: self.planner_candidate_limit,
            error_budget: self.error_budget,
            probe_history: has_prior && self.registry.has("sessions_history"),
            transcript,
            turn_messages: vec![user],
            tool_calls: Vec::new(),
            planning_steps: Vec::new(),
            state: TurnState::default(),
            iterations: 0,
            finish_reason: None,
            pending: None,
            final_content: None,
        };
        assert(r@.turn_messages =~= seq![user@]);
        assert(r@.tool_calls =~= Seq::empty());
        assert(r@.steps =~= Seq::empty());
        r
    }

    /// Begins a turn under a fresh invocation identifier.
    pub fn begin_turn(&self, request: &ChatTurnRequest, prior_messages: Vec<Content>) -> (r: Turn)
        requires
            self.wf(),
        ensures
            exists|uuid: Seq<u8>|
                encoding::is_uuid_v4(uuid) && r@ == #[trigger] self.begun(
                    *request,
                    content::contents_view(prior_messages@),
                    uuid,
                ),
            turn::well_kept(r@),
    {
        let uuid = outside::new_uuid();
        self.begin_turn_with(request, prior_messages, &uuid)
    }
}

/// A turn begins in order: with the system prompt, the earlier messages and the user's own, and
/// with nothing done yet.
pub proof fn law_turn_begins_in_order(
    engine: ToolCallEngine,
    request: ChatTurnRequest,
    prior: Seq<ContentView>,
    uuid: Seq<u8>,
)
    requires
        engine.wf(),
    ensures
        ({
            let t = engine.begun(request, prior, uuid);
            &&& turn::is_fresh(t)
            &&& t.transcript == (seq![t.transcript[0]] + prior) + t.turn_messages
            &&& t.transcript[0].role == "system"@
        }),
{
    let t = engine.begun(request, prior, uuid);
    assert(t.transcript =~= (seq![t.transcript[0]] + prior) + t.turn_messages);
}

/// What a session holds after a turn that was stored is the transcript of the turn without its
/// system prompt: what the session held before, then all that was said in the turn. A turn that is
/// not stored leaves the session as it was.
pub proof fn law_transcript_is_stored(
    engine: ToolCallEngine,
    request: ChatTurnRequest,
    prior: Seq<ContentView>,
    uuid: Seq<u8>,
    events: Seq<TurnEvent>,
)
    requires
        engine.wf(),
        turn::playable(engine.begun(request, prior, uuid), events),
    ensures
        ({
            let p = turn::played(engine.begun(request, prior, uuid), events);
            turn::messages_after(prior, p, request.session_id@) == if request.persist {
                p.transcript.skip(1)
            } else {
                prior
            }
        }),
{
    let t = engine.begun(request, prior, uuid);
    let p = turn::played(t, events);
    law_turn_begins_in_order(engine, request, prior, uuid);
    turn::law_every_turn_is_in_order(seq![t.transcript[0]] + prior, t, events);
    assert((seq![t.transcript[0]] + prior + p.turn_messages).skip(1) =~= prior + p.turn_messages);
}

/// What a caller is told of a turn never shows a call that repeats the one before it, nor two calls
/// that take turns, whatever the model replies and the tools give, as long as the engine considers
/// at least three candidates and allows as many calls as rounds, as a new one does, and the caller
/// asks for no more rounds than the engine's own.
pub proof fn law_response_never_circles(
    engine: ToolCallEngine,
    request: ChatTurnRequest,
    prior: Seq<ContentView>,
    uuid: Seq<u8>,
    events: Seq<TurnEvent>,
    stored_count: nat,
)
    requires
        engine.wf(),
        engine.planner_candidate_limit >= 3,
        engine.max_iterations <= engine.max_tool_calls_per_turn,
        request.max_iterations matches Some(n) ==> n <= engine.max_iterations,
        turn::playable(engine.begun(request, prior, uuid), events),
        turn::step_of(turn::played(engine.begun(request, prior, uuid), events)) is Done,
    ensures
        turn::never_circles(
            turn::response_of(
                turn::played(engine.begun(request, prior, uuid), events),
                stored_count,
            ).tool_calls,
        ),
{
    law_turn_begins_in_order(engine, request, prior, uuid);
    turn::law_recorded_calls_never_circle(engine.begun(request, prior, uuid), events);
}

} // verus!
