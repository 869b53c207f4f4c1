//! Planning: the candidates for the next action, and the choice among them.

use vstd::prelude::*;
use vstd::string::*;

use crate::encoding;
use crate::engine::content;
use crate::engine::content::{Content, PartView};
use crate::engine::state;
use crate::engine::state::{StateView, TurnState};
use crate::engine::util;
use crate::engine::util::{CallView, FunctionCallEnvelope};
use crate::outside;
use crate::text;

verus! {

/// One action that the engine can commit to.
#[derive(Debug)]
pub enum PlannedAction {
    CallTool(FunctionCallEnvelope),
    Answer { text: String },
    AskUser { question: String },
}

/// The contents of an action.
pub enum ActionView {
    CallTool(CallView),
    Answer { text: Seq<char> },
    AskUser { question: Seq<char> },
}

impl View for PlannedAction {
    type V = ActionView;

    open spec fn view(&self) -> ActionView {
        match *self {
            PlannedAction::CallTool(call) => ActionView::CallTool(call@),
            PlannedAction::Answer { text } => ActionView::Answer { text: text@ },
            PlannedAction::AskUser { question } => ActionView::AskUser { question: question@ },
        }
    }
}

impl Clone for PlannedAction {
    fn clone(&self) -> (r: Self)
        ensures
            r == *self,
    {
        match self {
            PlannedAction::CallTool(call) => PlannedAction::CallTool(call.clone()),
            PlannedAction::Answer { text } => PlannedAction::Answer { text: text.clone() },
            PlannedAction::AskUser { question } => PlannedAction::AskUser {
                question: question.clone(),
            },
        }
    }
}

/// An action that was considered, and why.
#[derive(Debug)]
pub struct ActionCandidate {
    pub label: String,
    pub reason: String,
    pub action: PlannedAction,
}

/// The contents of a candidate.
pub struct CandidateView {
    pub label: Seq<char>,
    pub reason: Seq<char>,
    pub action: ActionView,
}

impl View for ActionCandidate {
    type V = CandidateView;

    open spec fn view(&self) -> CandidateView {
        CandidateView { label: self.label@, reason: self.reason@, action: self.action@ }
    }
}

/// The contents of a list of candidates.
pub open spec fn candidates_view(cs: Seq<ActionCandidate>) -> Seq<CandidateView> {
    cs.map_values(|c: ActionCandidate| c@)
}

/// What is recorded of a candidate.
#[derive(Debug)]
pub struct PlanningCandidateTrace {
    pub label: String,
    pub action_type: String,
    pub preview: String,
    pub selected: bool,
    pub reason: String,
}

/// The contents of such a record.
pub struct CandidateTraceView {
    pub label: Seq<char>,
    pub action_type: Seq<char>,
    pub preview: Seq<char>,
    pub selected: bool,
    pub reason: Seq<char>,
}

impl View for PlanningCandidateTrace {
    type V = CandidateTraceView;

    open spec fn view(&self) -> CandidateTraceView {
        CandidateTraceView {
            label: self.label@,
            action_type: self.action_type@,
            preview: self.preview@,
            selected: self.selected,
            reason: self.reason@,
        }
    }
}

/// The contents of a list of such records.
pub open spec fn candidate_traces_view(ts: Seq<PlanningCandidateTrace>) -> Seq<CandidateTraceView> {
    ts.map_values(|t: PlanningCandidateTrace| t@)
}

/// The kind of an action, by name.
pub open spec fn action_type_of(action: ActionView) -> Seq<char> {
    match action {
        ActionView::CallTool(_) => "call_tool"@,
        ActionView::Answer { .. } => "answer"@,
        ActionView::AskUser { .. } => "ask_user"@,
    }
}

/// Names the kind of an action.
pub fn candidate_action_type(action: &PlannedAction) -> (r: &'static str)
    ensures
        r@ == action_type_of(action@),
{
    match action {
        PlannedAction::CallTool(_) => "call_tool",
        PlannedAction::Answer { .. } => "answer",
        PlannedAction::AskUser { .. } => "ask_user",
    }
}

/// An action on one short line.
pub open spec fn action_preview(action: ActionView) -> Seq<char> {
    match action {
        ActionView::CallTool(call) => call.name + "("@ + util::preview_of(
            util::json_line(call.args),
            120,
        ) + ")"@,
        ActionView::Answer { text } => util::preview_of(text, 160),
        ActionView::AskUser { question } => util::preview_of(question, 160),
    }
}

/// Writes an action on one short line.
pub fn candidate_preview(action: &PlannedAction) -> (r: String)
    ensures
        r@ == action_preview(action@),
{
    match action {
        PlannedAction::CallTool(call) => text::cat4(
            call.name.as_str(),
            "(",
            util::preview_json(call.args.as_str(), 120).as_str(),
            ")",
        ),
        PlannedAction::Answer { text } => util::preview_text(text.as_str(), 160),
        PlannedAction::AskUser { question } => util::preview_text(question.as_str(), 160),
    }
}

/// The signature of a call.
pub open spec fn call_signature(call: CallView) -> Seq<char> {
    util::signature_of(call.name, call.args)
}

/// Whether one of the calls has a signature.
pub open spec fn any_signature(calls: Seq<CallView>, signature: Seq<char>) -> bool {
    exists|i: int| 0 <= i < calls.len() && call_signature(#[trigger] calls[i]) == signature
}

/// The calls without those whose signature came before.
pub open spec fn distinct_calls(calls: Seq<CallView>) -> Seq<CallView>
    decreases calls.len(),
{
    if calls.len() == 0 {
        Seq::empty()
    } else {
        let kept = distinct_calls(calls.drop_last());
        if any_signature(kept, call_signature(calls.last())) {
            kept
        } else {
            kept.push(calls.last())
        }
    }
}

/// The candidate for a call that the model asked for.
pub open spec fn tool_candidate(call: CallView) -> CandidateView {
    CandidateView {
        label: "tool:"@ + call.name,
        reason: "model proposed an immediate tool step"@,
        action: ActionView::CallTool(call),
    }
}

/// The candidate for an answer in plain text.
pub open spec fn answer_candidate(text: Seq<char>) -> CandidateView {
    CandidateView {
        label: "answer:direct"@,
        reason: "model produced a direct answer candidate"@,
        action: ActionView::Answer { text },
    }
}

/// The call that looks into the history of a session.
pub open spec fn history_probe(session_id: Seq<char>, uuid: Seq<u8>) -> CallView {
    CallView {
        function_call_id: "call-"@ + encoding::uuid_text(uuid),
        name: "sessions_history"@,
        args: "{\"limit\":6,\"session_id\":"@ + encoding::json_string(session_id) + "}"@,
    }
}

/// The candidate for a look into the history.
pub open spec fn history_candidate(session_id: Seq<char>, uuid: Seq<u8>) -> CandidateView {
    CandidateView {
        label: "context:history"@,
        reason:
            "default context branch that inspects committed session history before another action"@,
        action: ActionView::CallTool(history_probe(session_id, uuid)),
    }
}

/// The candidate for a question to the user.
pub open spec fn clarify_candidate() -> CandidateView {
    CandidateView {
        label: "clarify:user"@,
        reason: "default clarification branch when no safer committed step remains"@,
        action: ActionView::AskUser {
            question:
                "I need a bit more context to continue safely. What exact result should the next step produce?"@,
        },
    }
}

/// What planning goes by.
pub struct PlanInput {
    pub session_id: Seq<char>,
    pub parts: Seq<PartView>,
    pub uuids: Seq<[u8; 16]>,
    pub probe_history: bool,
    pub limit: nat,
}

/// The candidates, at most `limit` of them: the calls that the model asked for, each once; then its
/// text as an answer; then a look into the history, where there is one and the tool for it; then a
/// question to the user.
pub open spec fn candidates_of(p: PlanInput) -> Seq<CandidateView> {
    let calls = distinct_calls(util::calls_of(p.parts, p.uuids));
    let tools = calls.map_values(|c: CallView| tool_candidate(c));
    let answer = text::trimmed(util::text_of(p.parts));
    let probe = history_probe(p.session_id, p.uuids[p.parts.len() as int]@);
    if tools.len() >= p.limit {
        tools.take(p.limit as int)
    } else {
        let a = if answer.len() > 0 {
            tools.push(answer_candidate(answer))
        } else {
            tools
        };
        let b = if p.probe_history && a.len() < p.limit && !any_signature(
            calls,
            call_signature(probe),
        ) {
            a.push(history_candidate(p.session_id, p.uuids[p.parts.len() as int]@))
        } else {
            a
        };
        if b.len() < p.limit {
            b.push(clarify_candidate())
        } else {
            b
        }
    }
}

fn has_signature(signatures: &Vec<String>, signature: &str) -> (r: bool)
    ensures
        r == text::strings_view(signatures@).contains(signature@),
{
    let ghost all = text::strings_view(signatures@);
    let mut i: usize = 0;
    while i < signatures.len()
        invariant
            i <= signatures@.len(),
            all == text::strings_view(signatures@),
            forall|j: int| 0 <= j < i ==> all[j] != signature@,
        decreases signatures@.len() - i,
    {
        if text::str_eq(signatures[i].as_str(), signature) {
            assert(all[i as int] == signature@);
            return true;
        }
        i = i + 1;
    }
    false
}

/// The signatures of calls.
pub open spec fn signatures_of(calls: Seq<CallView>) -> Seq<Seq<char>> {
    calls.map_values(|c: CallView| call_signature(c))
}

proof fn lemma_any_signature(calls: Seq<CallView>, signature: Seq<char>)
    ensures
        any_signature(calls, signature) == signatures_of(calls).contains(signature),
{
    let ss = signatures_of(calls);
    if ss.contains(signature) {
        let i = choose|i: int| 0 <= i < ss.len() && ss[i] == signature;
        assert(call_signature(calls[i]) == signature);
    }
    if any_signature(calls, signature) {
        let i = choose|i: int|
            0 <= i < calls.len() && call_signature(#[trigger] calls[i]) == signature;
        assert(ss[i] == signature);
    }
}

proof fn lemma_distinct_grows(calls: Seq<CallView>, k: int)
    requires
        0 <= k <= calls.len(),
    ensures
        distinct_calls(calls.take(k)).len() <= distinct_calls(calls).len(),
        distinct_calls(calls.take(k)) == distinct_calls(calls).take(
            distinct_calls(calls.take(k)).len() as int,
        ),
    decreases calls.len(),
{
    if k < calls.len() {
        lemma_distinct_grows(calls.drop_last(), k);
        assert(calls.drop_last().take(k) =~= calls.take(k));
        let kept = distinct_calls(calls.drop_last());
        let n = distinct_calls(calls.take(k)).len() as int;
        assert(distinct_calls(calls).take(n) =~= kept.take(n));
    } else {
        assert(calls.take(k) =~= calls);
        assert(distinct_calls(calls).take(distinct_calls(calls).len() as int) =~= distinct_calls(
            calls,
        ));
    }
}

/// The arguments of a look into the history.
fn probe_args(session_id: &str) -> (r: String)
    ensures
        r@ == "{\"limit\":6,\"session_id\":"@ + encoding::json_string(session_id@) + "}"@,
{
    text::cat3("{\"limit\":6,\"session_id\":", outside::json_quote(session_id).as_str(), "}")
}

/// Lists the candidates for the next action. `uuids` holds one UUID for each part of the message
/// and one for a look into the history.
pub fn plan_candidates(
    session_id: &str,
    model_content: &Content,
    uuids: &Vec<[u8; 16]>,
    probe_history: bool,
    limit: usize,
) -> (r: Vec<ActionCandidate>)
    requires
        limit > 0,
        uuids@.len() == model_content@.parts.len() + 1,
    ensures
        candidates_view(r@) == candidates_of(
            PlanInput {
                session_id: session_id@,
                parts: model_content@.parts,
                uuids: uuids@,
                probe_history,
                limit: limit as nat,
            },
        ),
{
    let ghost parts = model_content@.parts;
    let calls = util::extract_function_calls(model_content, uuids);
    let ghost all = util::calls_view(calls@);
    let ghost kept = distinct_calls(all);
    let ghost tools = kept.map_values(|c: CallView| tool_candidate(c));
    let mut out: Vec<ActionCandidate> = Vec::new();
    let mut seen: Vec<String> = Vec::new();
    let mut i: usize = 0;
    proof {
        assert(all.take(0) =~= Seq::empty());
        assert(candidates_view(out@) =~= tools.take(0));
        assert(text::strings_view(seen@) =~= signatures_of(kept.take(0)));
    }
    while i < calls.len()
        invariant
            i <= calls@.len(),
            limit > 0,
            parts == model_content@.parts,
            all == util::calls_view(calls@),
            all == util::calls_of(parts, uuids@),
            kept == distinct_calls(all),
            tools == kept.map_values(|c: CallView| tool_candidate(c)),
            out@.len() == distinct_calls(all.take(i as int)).len(),
            out@.len() < limit,
            out@.len() <= kept.len(),
            candidates_view(out@) == tools.take(out@.len() as int),
            text::strings_view(seen@) == signatures_of(kept.take(out@.len() as int)),
        decreases calls@.len() - i,
    {
        let call = &calls[i];
        let signature = util::tool_call_signature(call.name.as_str(), call.args.as_str());
        let ghost before = distinct_calls(all.take(i as int));
        let ghost n = out@.len() as int;
        proof {
            lemma_distinct_grows(all, i as int);
            lemma_distinct_grows(all, i + 1);
            lemma_any_signature(before, signature@);
            assert(all.take(i + 1).drop_last() =~= all.take(i as int));
            assert(all.take(i + 1).last() == call@);
        }
        if !has_signature(&seen, signature.as_str()) {
            let ghost shown = candidates_view(out@);
            let ghost sigs = text::strings_view(seen@);
            seen.push(signature);
            let c = ActionCandidate {
                label: text::cat("tool:", call.name.as_str()),
                reason: "model proposed an immediate tool step".to_owned(),
                action: PlannedAction::CallTool(call.clone()),
            };
            out.push(c);
            proof {
                assert(distinct_calls(all.take(i + 1)) == before.push(call@));
                assert(kept[n] == call@) by {
                    assert(before.push(call@)[n] == call@);
                    assert(kept.take(n + 1)[n] == kept[n]);
                }
                assert(candidates_view(out@) =~= shown.push(c@));
                assert(c@ == tools[n]);
                assert(tools.take(n + 1) =~= tools.take(n).push(tools[n]));
                assert(text::strings_view(seen@) =~= sigs.push(signature@));
                assert(kept.take(n + 1) =~= kept.take(n).push(kept[n]));
                assert(signatures_of(kept.take(n + 1)) =~= signatures_of(kept.take(n)).push(
                    call_signature(kept[n]),
                ));
            }
            if out.len() >= limit {
                return out;
            }
        }
        i = i + 1;
    }
    proof {
        assert(all.take(i as int) =~= all);
        assert(kept.take(out@.len() as int) =~= kept);
        assert(tools.take(out@.len() as int) =~= tools);
    }
    let answer = util::extract_text(model_content);
    if answer.as_str().unicode_len() > 0 {
        let ghost shown = candidates_view(out@);
        let c = ActionCandidate {
            label: "answer:direct".to_owned(),
            reason: "model produced a direct answer candidate".to_owned(),
            action: PlannedAction::Answer { text: answer },
        };
        out.push(c);
        assert(candidates_view(out@) =~= shown.push(c@));
    }
    if probe_history && out.len() < limit {
        let args = probe_args(session_id);
        let uuid = &uuids[model_content.parts.len()];
        let signature = util::tool_call_signature("sessions_history", args.as_str());
        proof {
            lemma_any_signature(kept, signature@);
        }
        if !has_signature(&seen, signature.as_str()) {
            let ghost shown = candidates_view(out@);
            let call = FunctionCallEnvelope {
                function_call_id: text::cat("call-", outside::uuid_to_text(uuid).as_str()),
                name: "sessions_history".to_owned(),
                args,
            };
            let c = ActionCandidate {
                label: "context:history".to_owned(),
                reason:
                    "default context branch that inspects committed session history before another action".to_owned(),
                action: PlannedAction::CallTool(call),
            };
            out.push(c);
            assert(candidates_view(out@) =~= shown.push(c@));
        }
    }
    if out.len() < limit {
        let ghost shown = candidates_view(out@);
        let c = ActionCandidate {
            label: "clarify:user".to_owned(),
            reason: "default clarification branch when no safer committed step remains".to_owned(),
            action: PlannedAction::AskUser {
                question:
                    "I need a bit more context to continue safely. What exact result should the next step produce?".to_owned(),
            },
        };
        out.push(c);
        assert(candidates_view(out@) =~= shown.push(c@));
    }
    out
}

/// Why a candidate is not committed to, if anything speaks against it. A question to the user is
/// never a first choice.
pub open spec fn objection(c: CandidateView, st: StateView, max_calls: nat) -> Option<Seq<char>> {
    match c.action {
        ActionView::CallTool(call) => if st.executed >= max_calls {
            Some("rejected by max_tool_calls_per_turn guard"@)
        } else if state::repeats(st.recent, call_signature(call)) {
            Some("rejected by repeated-call detection (same tool + same args)"@)
        } else if state::ping_pongs(st.recent, call_signature(call)) {
            Some("rejected by repeated-call detection (A/B ping-pong)"@)
        } else {
            None
        },
        ActionView::Answer { text } => if text::is_blank(text) {
            Some("rejected because the answer text is empty"@)
        } else {
            None
        },
        ActionView::AskUser { question } => if text::is_blank(question) {
            Some("rejected because the clarification question is empty"@)
        } else {
            Some("kept as a fallback clarification branch"@)
        },
    }
}

/// A question that can be put to the user where nothing else is left.
pub open spec fn is_fallback(c: CandidateView) -> bool {
    c.action matches ActionView::AskUser { question } && !text::is_blank(question)
}

/// The place of the first candidate that nothing speaks against, or the number of candidates.
pub open spec fn first_viable(cs: Seq<CandidateView>, st: StateView, max_calls: nat) -> int
    decreases cs.len(),
{
    if cs.len() == 0 {
        0
    } else if objection(cs[0], st, max_calls) is None {
        0
    } else {
        1 + first_viable(cs.skip(1), st, max_calls)
    }
}

/// The place of the last question that can be put to the user.
pub open spec fn last_fallback(cs: Seq<CandidateView>) -> Option<int>
    decreases cs.len(),
{
    if cs.len() == 0 {
        None
    } else if is_fallback(cs.last()) {
        Some(cs.len() - 1)
    } else {
        last_fallback(cs.drop_last())
    }
}

/// The place of the chosen candidate: the first viable one, else the last question to the user,
/// else the first of all.
pub open spec fn chosen(cs: Seq<CandidateView>, st: StateView, max_calls: nat) -> int {
    let k = first_viable(cs, st, max_calls);
    if k < cs.len() {
        k
    } else {
        match last_fallback(cs) {
            Some(f) => f,
            None => 0,
        }
    }
}

/// Why the chosen candidate was chosen.
pub open spec fn choice_reason(cs: Seq<CandidateView>, st: StateView, max_calls: nat) -> Seq<char> {
    let k = first_viable(cs, st, max_calls);
    if k < cs.len() {
        match cs[k].action {
            ActionView::CallTool(_) => cs[k].reason
                + "; selected the first viable committed tool step"@,
            _ => cs[k].reason
                + "; selected the direct answer because no earlier viable tool candidate won"@,
        }
    } else if last_fallback(cs) is Some {
        "selected the clarification branch because no safe tool or final answer candidate remained"@
    } else {
        Seq::empty()
    }
}

/// What is recorded of the candidate at place `i`.
pub open spec fn trace_of(
    cs: Seq<CandidateView>,
    st: StateView,
    max_calls: nat,
    i: int,
) -> CandidateTraceView {
    let sel = chosen(cs, st, max_calls);
    CandidateTraceView {
        label: cs[i].label,
        action_type: action_type_of(cs[i].action),
        preview: action_preview(cs[i].action),
        selected: i == sel,
        reason: if i == sel {
            choice_reason(cs, st, max_calls)
        } else if i > first_viable(cs, st, max_calls) {
            "not selected because an earlier candidate won"@
        } else {
            objection(cs[i], st, max_calls)->Some_0
        },
    }
}

/// The choice and how it came about.
#[derive(Debug)]
pub struct SelectedAction {
    pub action: PlannedAction,
    pub selected_preview: String,
    pub selection_reason: String,
    pub candidate_traces: Vec<PlanningCandidateTrace>,
}

/// The contents of a choice.
#[verifier::ext_equal]
pub struct SelectionView {
    pub action: ActionView,
    pub preview: Seq<char>,
    pub reason: Seq<char>,
    pub traces: Seq<CandidateTraceView>,
}

impl View for SelectedAction {
    type V = SelectionView;

    open spec fn view(&self) -> SelectionView {
        SelectionView {
            action: self.action@,
            preview: self.selected_preview@,
            reason: self.selection_reason@,
            traces: candidate_traces_view(self.candidate_traces@),
        }
    }
}

/// The choice among candidates.
pub open spec fn selection_of(
    cs: Seq<CandidateView>,
    st: StateView,
    max_calls: nat,
) -> SelectionView {
    let sel = chosen(cs, st, max_calls);
    SelectionView {
        action: cs[sel].action,
        preview: action_preview(cs[sel].action),
        reason: choice_reason(cs, st, max_calls),
        traces: Seq::new(cs.len(), |i: int| trace_of(cs, st, max_calls, i)),
    }
}

fn objection_to(
    candidate: &ActionCandidate,
    st: &TurnState,
    max_calls: usize,
) -> (r: Option<String>)
    ensures
        text::opt_view(r) == objection(candidate@, st@, max_calls as nat),
{
    match &candidate.action {
        PlannedAction::CallTool(call) => {
            if st.tool_calls_executed >= max_calls {
                return Some("rejected by max_tool_calls_per_turn guard".to_owned());
            }
            let signature = util::tool_call_signature(call.name.as_str(), call.args.as_str());
            if st.would_repeat_exact(signature.as_str()) {
                return Some(
                    "rejected by repeated-call detection (same tool + same args)".to_owned(),
                );
            }
            if st.would_ping_pong(signature.as_str()) {
                return Some("rejected by repeated-call detection (A/B ping-pong)".to_owned());
            }
            None
        },
        PlannedAction::Answer { text } => {
            if text::blank(text.as_str()) {
                return Some("rejected because the answer text is empty".to_owned());
            }
            None
        },
        PlannedAction::AskUser { question } => {
            if text::blank(question.as_str()) {
                return Some("rejected because the clarification question is empty".to_owned());
            }
            Some("kept as a fallback clarification branch".to_owned())
        },
    }
}

fn can_fall_back(candidate: &ActionCandidate) -> (r: bool)
    ensures
        r == is_fallback(candidate@),
{
    match &candidate.action {
        PlannedAction::AskUser { question } => !text::blank(question.as_str()),
        _ => false,
    }
}

proof fn lemma_first_viable_at(cs: Seq<CandidateView>, st: StateView, max_calls: nat, k: int)
    requires
        0 <= k <= cs.len(),
        forall|i: int| 0 <= i < k ==> objection(#[trigger] cs[i], st, max_calls) is Some,
        k < cs.len() ==> objection(cs[k], st, max_calls) is None,
    ensures
        first_viable(cs, st, max_calls) == k,
    decreases cs.len(),
{
    if k > 0 {
        let rest = cs.skip(1);
        assert forall|i: int| 0 <= i < k - 1 implies objection(
            #[trigger] rest[i],
            st,
            max_calls,
        ) is Some by {
            assert(rest[i] == cs[i + 1]);
        }
        lemma_first_viable_at(rest, st, max_calls, k - 1);
    }
}

/// Commits to one of the candidates.
pub fn select_action(candidates: Vec<ActionCandidate>, st: &TurnState, max_calls: usize) -> (r:
    SelectedAction)
    requires
        candidates@.len() > 0,
    ensures
        r@ == selection_of(candidates_view(candidates@), st@, max_calls as nat),
{
    let ghost cs = candidates_view(candidates@);
    let ghost sv = st@;
    let ghost max = max_calls as nat;
    let n: usize = candidates.len();
    let mut rejections: Vec<String> = Vec::new();
    let mut fallback: Option<usize> = None;
    let mut k: usize = 0;
    let mut found = false;
    assert(cs.take(0) =~= Seq::empty());
    while k < n && !found
        invariant
            k <= n,
            n == candidates@.len(),
            cs == candidates_view(candidates@),
            sv == st@,
            max == max_calls as nat,
            rejections@.len() == k,
            forall|i: int|
                0 <= i < k ==> objection(#[trigger] cs[i], sv, max) == Some(rejections@[i]@),
            found ==> k < n && objection(cs[k as int], sv, max) is None,
            match fallback {
                Some(f) => last_fallback(cs.take(k as int)) == Some(f as int) && f < k,
                None => last_fallback(cs.take(k as int)) is None,
            },
        decreases
            n - k,
            if found {
                0int
            } else {
                1int
            },
    {
        match objection_to(&candidates[k], st, max_calls) {
            None => {
                found = true;
            },
            Some(why) => {
                assert(cs.take(k + 1).drop_last() =~= cs.take(k as int));
                assert(cs.take(k + 1).last() == cs[k as int]);
                if can_fall_back(&candidates[k]) {
                    fallback = Some(k);
                }
                rejections.push(why);
                k = k + 1;
            },
        }
    }
    proof {
        lemma_first_viable_at(cs, sv, max, k as int);
        assert(cs.take(cs.len() as int) =~= cs);
    }
    let sel: usize = if k < n {
        k
    } else {
        match fallback {
            Some(f) => f,
            None => 0,
        }
    };
    let reason: String = if k < n {
        match &candidates[k].action {
            PlannedAction::CallTool(_) => text::cat(
                candidates[k].reason.as_str(),
                "; selected the first viable committed tool step",
            ),
            _ => text::cat(
                candidates[k].reason.as_str(),
                "; selected the direct answer because no earlier viable tool candidate won",
            ),
        }
    } else if fallback.is_some() {
        "selected the clarification branch because no safe tool or final answer candidate remained".to_owned()
    } else {
        String::new()
    };
    assert(sel == chosen(cs, sv, max));
    assert(reason@ =~= choice_reason(cs, sv, max));
    let mut traces: Vec<PlanningCandidateTrace> = Vec::new();
    let mut i: usize = 0;
    while i < n
        invariant
            i <= n,
            n == candidates@.len(),
            cs == candidates_view(candidates@),
            k <= n,
            sel < n,
            rejections@.len() == k,
            k == first_viable(cs, sv, max),
            sel == chosen(cs, sv, max),
            reason@ == choice_reason(cs, sv, max),
            k < n ==> sel == k,
            forall|j: int|
                0 <= j < k ==> objection(#[trigger] cs[j], sv, max) == Some(rejections@[j]@),
            traces@.len() == i,
            forall|j: int| 0 <= j < i ==> (#[trigger] traces@[j])@ == trace_of(cs, sv, max, j),
        decreases n - i,
    {
        let candidate = &candidates[i];
        assert(cs[i as int] == candidate@);
        let trace = PlanningCandidateTrace {
            label: candidate.label.clone(),
            action_type: candidate_action_type(&candidate.action).to_owned(),
            preview: candidate_preview(&candidate.action),
            selected: i == sel,
            reason: if i == sel {
                reason.clone()
            } else if i > k {
                "not selected because an earlier candidate won".to_owned()
            } else {
                rejections[i].clone()
            },
        };
        assert(trace@ == trace_of(cs, sv, max, i as int));
        traces.push(trace);
        i = i + 1;
    }
    let preview = candidate_preview(&candidates[sel].action);
    let action = candidates[sel].action.clone();
    assert(cs[sel as int] == candidates@[sel as int]@);
    let r = SelectedAction {
        action,
        selected_preview: preview,
        selection_reason: reason,
        candidate_traces: traces,
    };
    assert(r@.traces =~= selection_of(cs, sv, max).traces);
    r
}

proof fn lemma_distinct_signatures(calls: Seq<CallView>)
    ensures
        forall|i: int, j: int|
            0 <= i < j < distinct_calls(calls).len() ==> call_signature(
                #[trigger] distinct_calls(calls)[i],
            ) != call_signature(#[trigger] distinct_calls(calls)[j]),
    decreases calls.len(),
{
    if calls.len() > 0 {
        lemma_distinct_signatures(calls.drop_last());
        let kept = distinct_calls(calls.drop_last());
        let all = distinct_calls(calls);
        assert forall|i: int, j: int| 0 <= i < j < all.len() implies call_signature(
            #[trigger] all[i],
        ) != call_signature(#[trigger] all[j]) by {
            assert(all[i] == kept[i]);
            if j < kept.len() {
                assert(all[j] == kept[j]);
            }
        }
    }
}

/// There is always a candidate, and never more of them than allowed.
pub proof fn law_candidates_are_bounded(p: PlanInput)
    requires
        p.limit > 0,
    ensures
        0 < candidates_of(p).len() <= p.limit,
{
}

/// No two candidates call the same tool with the same arguments.
pub proof fn law_candidate_calls_differ(p: PlanInput, i: int, j: int)
    requires
        p.limit > 0,
        0 <= i < j < candidates_of(p).len(),
        candidates_of(p)[i].action is CallTool,
        candidates_of(p)[j].action is CallTool,
    ensures
        call_signature(candidates_of(p)[i].action->CallTool_0) != call_signature(
            candidates_of(p)[j].action->CallTool_0,
        ),
{
    let calls = distinct_calls(util::calls_of(p.parts, p.uuids));
    lemma_distinct_signatures(util::calls_of(p.parts, p.uuids));
    let cs = candidates_of(p);
    if j < calls.len() {
        assert(cs[i] == tool_candidate(calls[i]));
        assert(cs[j] == tool_candidate(calls[j]));
    } else {
        let probe = history_probe(p.session_id, p.uuids[p.parts.len() as int]@);
        assert(cs[j].action == ActionView::CallTool(probe));
        assert(i < calls.len());
        assert(cs[i] == tool_candidate(calls[i]));
    }
}

/// A committed call is never the one just made, never the next of two that take turns, and never
/// one more than the turn allows, as long as some other candidate is viable or can be asked.
pub proof fn law_committed_call_is_fresh(cs: Seq<CandidateView>, st: StateView, max_calls: nat)
    requires
        cs.len() > 0,
        first_viable(cs, st, max_calls) < cs.len() || last_fallback(cs) is Some,
    ensures
        selection_of(cs, st, max_calls).action matches ActionView::CallTool(call) ==> {
            &&& st.executed < max_calls
            &&& !state::repeats(st.recent, call_signature(call))
            &&& !state::ping_pongs(st.recent, call_signature(call))
        },
{
    lemma_first_viable_props(cs, st, max_calls);
    lemma_last_fallback_props(cs);
}

proof fn lemma_first_viable_props(cs: Seq<CandidateView>, st: StateView, max_calls: nat)
    ensures
        0 <= first_viable(cs, st, max_calls) <= cs.len(),
        first_viable(cs, st, max_calls) < cs.len() ==> objection(
            cs[first_viable(cs, st, max_calls)],
            st,
            max_calls,
        ) is None,
        forall|i: int|
            0 <= i < first_viable(cs, st, max_calls) ==> objection(
                #[trigger] cs[i],
                st,
                max_calls,
            ) is Some,
    decreases cs.len(),
{
    if cs.len() > 0 && objection(cs[0], st, max_calls) is Some {
        let rest = cs.skip(1);
        lemma_first_viable_props(rest, st, max_calls);
        assert forall|i: int| 0 <= i < first_viable(cs, st, max_calls) implies objection(
            #[trigger] cs[i],
            st,
            max_calls,
        ) is Some by {
            if i > 0 {
                assert(cs[i] == rest[i - 1]);
            }
        }
    }
}

proof fn lemma_last_fallback_props(cs: Seq<CandidateView>)
    ensures
        last_fallback(cs) matches Some(f) ==> 0 <= f < cs.len() && is_fallback(cs[f]),
    decreases cs.len(),
{
    if cs.len() > 0 && !is_fallback(cs.last()) {
        lemma_last_fallback_props(cs.drop_last());
    }
}

/// Whether exactly one of the recorded candidates was selected, and the record of the round tells of
/// that one.
pub open spec fn selects_one(
    traces: Seq<CandidateTraceView>,
    preview: Seq<char>,
    reason: Seq<char>,
) -> bool {
    exists|k: int|
        #![trigger traces[k]]
        {
            &&& 0 <= k < traces.len()
            &&& forall|i: int| 0 <= i < traces.len() ==> ((#[trigger] traces[i]).selected <==> i == k)
            &&& traces[k].preview == preview
            &&& traces[k].reason == reason
        }
}

/// Exactly one of the candidates is selected.
pub proof fn law_one_candidate_is_selected(cs: Seq<CandidateView>, st: StateView, max_calls: nat)
    requires
        cs.len() > 0,
    ensures
        ({
            let sel = selection_of(cs, st, max_calls);
            selects_one(sel.traces, sel.preview, sel.reason)
        }),
{
    lemma_first_viable_props(cs, st, max_calls);
    lemma_last_fallback_props(cs);
    let sel = selection_of(cs, st, max_calls);
    let k = chosen(cs, st, max_calls);
    assert(0 <= k < cs.len());
    assert(sel.traces[k] == trace_of(cs, st, max_calls, k));
}

/// Where at least three candidates may be considered and one more call is allowed, something is left
/// to do: as the calls differ, at most two of them are refused, one as the call just made and one as
/// the next of two that take turns.
pub proof fn law_three_candidates_leave_a_choice(p: PlanInput, st: StateView, max_calls: nat)
    requires
        p.limit >= 3,
        st.executed < max_calls,
    ensures
        ({
            let cs = candidates_of(p);
            first_viable(cs, st, max_calls) < cs.len() || last_fallback(cs) is Some
        }),
{
    let cs = candidates_of(p);
    lemma_first_viable_props(cs, st, max_calls);
    law_candidates_are_bounded(p);
    if first_viable(cs, st, max_calls) >= cs.len() {
        assert(objection(cs[0], st, max_calls) is Some);
        if cs.last() == clarify_candidate() {
            lemma_question_is_not_blank();
            assert(last_fallback(cs) is Some);
        } else {
            lemma_calls_fill_the_list(p);
            let a = cs[0];
            let b = cs[1];
            let c = cs[2];
            if a.action is CallTool && b.action is CallTool && c.action is CallTool {
                law_candidate_calls_differ(p, 0, 1);
                law_candidate_calls_differ(p, 0, 2);
                law_candidate_calls_differ(p, 1, 2);
            }
            assert(objection(a, st, max_calls) is Some);
            assert(objection(b, st, max_calls) is Some);
            assert(objection(c, st, max_calls) is Some);
        }
    }
}

proof fn lemma_question_is_not_blank()
    ensures
        is_fallback(clarify_candidate()),
{
    reveal_strlit(
        "I need a bit more context to continue safely. What exact result should the next step produce?",
    );
    let question =
        "I need a bit more context to continue safely. What exact result should the next step produce?"@;
    assert(question[0] == 'I');
    assert(!text::is_white_space(question[0]));
}

proof fn lemma_calls_fill_the_list(p: PlanInput)
    requires
        p.limit >= 3,
        candidates_of(p).last() != clarify_candidate(),
    ensures
        candidates_of(p).len() == p.limit,
        forall|i: int|
            0 <= i < p.limit ==> (#[trigger] candidates_of(p)[i]).action is CallTool || (
            candidates_of(p)[i].action matches ActionView::Answer { text } && !text::is_blank(text)),
{
    let said = util::text_of(p.parts);
    text::lemma_trimmed_empty(said);
    text::law_trimming_is_idempotent(said);
    text::lemma_trimmed_empty(text::trimmed(said));
    let calls = distinct_calls(util::calls_of(p.parts, p.uuids));
    let tools = calls.map_values(|c: CallView| tool_candidate(c));
    assert forall|i: int| 0 <= i < tools.len() implies (#[trigger] tools[i]).action is CallTool by {
        assert(tools[i] == tool_candidate(calls[i]));
    }
}

} // verus!
