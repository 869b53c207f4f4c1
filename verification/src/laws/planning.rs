//! What holds of planning: what is considered, and what is chosen.

use vstd::prelude::*;
use vstd::string::*;

use crate::encoding;
use crate::engine::content;
use crate::engine::content::{Content, Part, PartView};
use crate::engine::plan;
use crate::engine::plan::{ActionCandidate, PlanInput, PlannedAction, SelectedAction};
use crate::engine::state::TurnState;
use crate::engine::util;
use crate::engine::util::CallView;
use crate::text;

verus! {

/// Whether a part of a reply asks for a call.
pub open spec fn asks(parts: Seq<Part>, j: int) -> bool {
    0 <= j < parts.len() && parts[j] is FunctionCall
}

/// The signature of the call that a part asks for.
pub open spec fn part_signature(part: Part) -> Seq<char> {
    util::signature_of(part->FunctionCall_name@, part->FunctionCall_args@)
}

/// Whether an action is the call that a part asks for, under the identifier that came with it, or
/// under a new one.
pub open spec fn is_call_of(action: PlannedAction, part: Part, j: int, uuids: Seq<[u8; 16]>) -> bool {
    &&& part matches Part::FunctionCall { name, args, id } && action matches PlannedAction::CallTool(
        call,
    ) && {
        &&& call.name@ == name@
        &&& call.args@ == args@
        &&& id matches Some(given) ==> call.function_call_id@ == given@
        &&& id is None ==> call.function_call_id@ == util::made_call_id(uuids[j]@, j as nat)
    }
}

/// Whether places in a reply stand in its order, each asking for a call, no two for the same one.
pub open spec fn are_distinct_calls(parts: Seq<Part>, places: Seq<int>) -> bool {
    &&& forall|k: int| 0 <= k < places.len() ==> asks(parts, #[trigger] places[k])
    &&& forall|k: int, l: int|
        0 <= k < l < places.len() ==> (#[trigger] places[k]) < (#[trigger] places[l])
            && part_signature(parts[places[k]]) != part_signature(parts[places[l]])
}

/// Whether the candidates begin with the calls that the parts at the given places ask for.
pub open spec fn begin_with_calls(
    cs: Seq<ActionCandidate>,
    parts: Seq<Part>,
    uuids: Seq<[u8; 16]>,
    places: Seq<int>,
) -> bool {
    &&& places.len() <= cs.len()
    &&& forall|k: int|
        0 <= k < places.len() ==> {
            &&& is_call_of((#[trigger] cs[k]).action, parts[places[k]], places[k], uuids)
            &&& cs[k].label@ == "tool:"@ + parts[places[k]]->FunctionCall_name@
            &&& cs[k].reason@ == "model proposed an immediate tool step"@
        }
}

/// Whether every call of a reply is among those at the given places, as far as there is room.
pub open spec fn leave_out_none(parts: Seq<Part>, limit: int, places: Seq<int>) -> bool {
    forall|j: int| #[trigger]
        asks(parts, j) ==> (places.len() == limit && places[limit - 1] < j) || (exists|k: int|
            0 <= k < places.len() && #[trigger] places[k] <= j && part_signature(parts[places[k]])
                == part_signature(parts[j]))
}

/// Whether the candidates begin with the calls that the parts at the given places ask for: in the
/// order of the reply, each call once, and all of them as far as there is room.
pub open spec fn calls_come_first(
    cs: Seq<ActionCandidate>,
    parts: Seq<Part>,
    uuids: Seq<[u8; 16]>,
    limit: int,
    places: Seq<int>,
) -> bool {
    &&& places.len() <= limit
    &&& are_distinct_calls(parts, places)
    &&& begin_with_calls(cs, parts, uuids, places)
    &&& leave_out_none(parts, limit, places)
}

/// The call that the part at a place asks for.
spec fn call_at(parts: Seq<PartView>, uuids: Seq<[u8; 16]>, j: int) -> CallView {
    CallView {
        function_call_id: match parts[j]->FunctionCall_id {
            Some(given) => given,
            None => util::made_call_id(uuids[j]@, j as nat),
        },
        name: parts[j]->FunctionCall_name,
        args: parts[j]->FunctionCall_args,
    }
}

spec fn kept_of(parts: Seq<PartView>, uuids: Seq<[u8; 16]>) -> Seq<CallView> {
    plan::distinct_calls(util::calls_of(parts, uuids))
}

/// The places of the calls that are kept.
spec fn places_of(parts: Seq<PartView>, uuids: Seq<[u8; 16]>) -> Seq<int>
    decreases parts.len(),
{
    if parts.len() == 0 {
        Seq::empty()
    } else {
        let earlier = places_of(parts.drop_last(), uuids);
        let n = parts.len() - 1;
        if parts.last() is FunctionCall && !plan::any_signature(
            kept_of(parts.drop_last(), uuids),
            plan::call_signature(call_at(parts, uuids, n)),
        ) {
            earlier.push(n)
        } else {
            earlier
        }
    }
}

proof fn lemma_kept_step(parts: Seq<PartView>, uuids: Seq<[u8; 16]>)
    requires
        parts.len() > 0,
    ensures
        ({
            let front = kept_of(parts.drop_last(), uuids);
            let call = call_at(parts, uuids, parts.len() - 1);
            kept_of(parts, uuids) == if parts.last() is FunctionCall && !plan::any_signature(
                front,
                plan::call_signature(call),
            ) {
                front.push(call)
            } else {
                front
            }
        }),
{
    let calls = util::calls_of(parts.drop_last(), uuids);
    if parts.last() is FunctionCall {
        let call = call_at(parts, uuids, parts.len() - 1);
        assert(util::calls_of(parts, uuids) == calls.push(call));
        assert(calls.push(call).drop_last() =~= calls);
        assert(calls.push(call).last() == call);
    }
}

proof fn lemma_places_match(parts: Seq<PartView>, uuids: Seq<[u8; 16]>)
    ensures
        places_of(parts, uuids).len() == kept_of(parts, uuids).len(),
        forall|k: int|
            0 <= k < places_of(parts, uuids).len() ==> {
                &&& 0 <= (#[trigger] places_of(parts, uuids)[k]) < parts.len()
                &&& parts[places_of(parts, uuids)[k]] is FunctionCall
                &&& kept_of(parts, uuids)[k] == call_at(parts, uuids, places_of(parts, uuids)[k])
            },
    decreases parts.len(),
{
    if parts.len() > 0 {
        let front = parts.drop_last();
        lemma_places_match(front, uuids);
        lemma_kept_step(parts, uuids);
        let ps = places_of(parts, uuids);
        let earlier = places_of(front, uuids);
        assert forall|k: int| 0 <= k < ps.len() implies {
            &&& 0 <= (#[trigger] ps[k]) < parts.len()
            &&& parts[ps[k]] is FunctionCall
            &&& kept_of(parts, uuids)[k] == call_at(parts, uuids, ps[k])
        } by {
            if k < earlier.len() {
                assert(ps[k] == earlier[k]);
                assert(front[earlier[k]] == parts[earlier[k]]);
                assert(kept_of(parts, uuids)[k] == kept_of(front, uuids)[k]);
            }
        }
    } else {
        assert(util::calls_of(parts, uuids) =~= Seq::empty());
    }
}

proof fn lemma_places_grow(parts: Seq<PartView>, uuids: Seq<[u8; 16]>)
    ensures
        forall|k: int, l: int|
            0 <= k < l < places_of(parts, uuids).len() ==> (#[trigger] places_of(parts, uuids)[k])
                < (#[trigger] places_of(parts, uuids)[l]),
    decreases parts.len(),
{
    if parts.len() > 0 {
        let front = parts.drop_last();
        lemma_places_grow(front, uuids);
        lemma_places_match(front, uuids);
        let ps = places_of(parts, uuids);
        let earlier = places_of(front, uuids);
        assert forall|k: int, l: int| 0 <= k < l < ps.len() implies (#[trigger] ps[k]) < (
        #[trigger] ps[l]) by {
            assert(ps[k] == earlier[k]);
            if l < earlier.len() {
                assert(ps[l] == earlier[l]);
            }
        }
    }
}

proof fn lemma_place_for(parts: Seq<PartView>, uuids: Seq<[u8; 16]>, j: int) -> (k: int)
    requires
        0 <= j < parts.len(),
        parts[j] is FunctionCall,
    ensures
        0 <= k < places_of(parts, uuids).len(),
        places_of(parts, uuids)[k] <= j,
        plan::call_signature(kept_of(parts, uuids)[k]) == plan::call_signature(
            call_at(parts, uuids, j),
        ),
    decreases parts.len(),
{
    let front = parts.drop_last();
    let n = parts.len() - 1;
    lemma_places_match(front, uuids);
    lemma_kept_step(parts, uuids);
    let earlier = places_of(front, uuids);
    let kept = kept_of(front, uuids);
    if j < n {
        assert(front[j] == parts[j]);
        let k = lemma_place_for(front, uuids, j);
        assert(call_at(front, uuids, j) == call_at(parts, uuids, j));
        assert(places_of(parts, uuids)[k] == earlier[k]);
        assert(kept_of(parts, uuids)[k] == kept[k]);
        k
    } else {
        let signature = plan::call_signature(call_at(parts, uuids, n));
        if plan::any_signature(kept, signature) {
            let i = choose|i: int|
                0 <= i < kept.len() && plan::call_signature(#[trigger] kept[i]) == signature;
            assert(earlier[i] < n);
            i
        } else {
            earlier.len() as int
        }
    }
}

spec fn shown_places(parts: Seq<PartView>, uuids: Seq<[u8; 16]>, limit: int) -> Seq<int> {
    let all = places_of(parts, uuids);
    if all.len() >= limit {
        all.take(limit)
    } else {
        all
    }
}

proof fn lemma_shown_kept(parts: Seq<Part>, uuids: Seq<[u8; 16]>, limit: int, k: int)
    requires
        limit > 0,
        0 <= k < shown_places(content::parts_view(parts), uuids, limit).len(),
    ensures
        ({
            let pv = content::parts_view(parts);
            let place = shown_places(pv, uuids, limit)[k];
            &&& place == places_of(pv, uuids)[k]
            &&& asks(parts, place)
            &&& kept_of(pv, uuids)[k] == call_at(pv, uuids, place)
            &&& k < kept_of(pv, uuids).len()
            &&& part_signature(parts[place]) == plan::call_signature(kept_of(pv, uuids)[k])
        }),
{
    let pv = content::parts_view(parts);
    lemma_places_match(pv, uuids);
    let place = places_of(pv, uuids)[k];
    assert(pv[place] == parts[place]@);
}

proof fn lemma_distinct_shown(p: PlanInput, parts: Seq<Part>)
    requires
        p.limit > 0,
        p.parts == content::parts_view(parts),
    ensures
        are_distinct_calls(parts, shown_places(p.parts, p.uuids, p.limit as int)),
{
    let ps = shown_places(p.parts, p.uuids, p.limit as int);
    let kept = kept_of(p.parts, p.uuids);
    lemma_places_match(p.parts, p.uuids);
    lemma_places_grow(p.parts, p.uuids);
    assert forall|k: int| 0 <= k < ps.len() implies asks(parts, #[trigger] ps[k]) by {
        lemma_shown_kept(parts, p.uuids, p.limit as int, k);
    }
    assert forall|k: int, l: int| 0 <= k < l < ps.len() implies (#[trigger] ps[k]) < (
    #[trigger] ps[l]) && part_signature(parts[ps[k]]) != part_signature(parts[ps[l]]) by {
        lemma_shown_kept(parts, p.uuids, p.limit as int, k);
        lemma_shown_kept(parts, p.uuids, p.limit as int, l);
        lemma_tool_at(p, k);
        lemma_tool_at(p, l);
        plan::law_candidate_calls_differ(p, k, l);
    }
}

proof fn lemma_tool_at(p: PlanInput, k: int)
    requires
        p.limit > 0,
        0 <= k < kept_of(p.parts, p.uuids).len(),
        k < p.limit,
    ensures
        k < plan::candidates_of(p).len(),
        plan::candidates_of(p)[k] == plan::tool_candidate(kept_of(p.parts, p.uuids)[k]),
{
}

proof fn lemma_none_left_out(parts: Seq<Part>, uuids: Seq<[u8; 16]>, limit: int)
    requires
        limit > 0,
    ensures
        leave_out_none(parts, limit, shown_places(content::parts_view(parts), uuids, limit)),
{
    let pv = content::parts_view(parts);
    let all = places_of(pv, uuids);
    let ps = shown_places(pv, uuids, limit);
    lemma_places_grow(pv, uuids);
    assert forall|j: int| #[trigger] asks(parts, j) implies (ps.len() == limit && ps[limit - 1] < j)
        || (exists|k: int|
        0 <= k < ps.len() && #[trigger] ps[k] <= j && part_signature(parts[ps[k]])
            == part_signature(parts[j])) by {
        assert(pv[j] == parts[j]@);
        let k = lemma_place_for(pv, uuids, j);
        if k < ps.len() {
            lemma_shown_kept(parts, uuids, limit, k);
            assert(ps[k] <= j);
        } else {
            assert(ps[limit - 1] == all[limit - 1]);
            assert(all[limit - 1] < all[k]);
        }
    }
}

proof fn lemma_shown_come_first(
    cs: Seq<ActionCandidate>,
    p: PlanInput,
    parts: Seq<Part>,
)
    requires
        p.limit > 0,
        p.parts == content::parts_view(parts),
        plan::candidates_view(cs) == plan::candidates_of(p),
    ensures
        calls_come_first(
            cs,
            parts,
            p.uuids,
            p.limit as int,
            shown_places(p.parts, p.uuids, p.limit as int),
        ),
        shown_places(p.parts, p.uuids, p.limit as int).len() == if kept_of(p.parts, p.uuids).len()
            >= p.limit {
            p.limit
        } else {
            kept_of(p.parts, p.uuids).len()
        },
{
    let ps = shown_places(p.parts, p.uuids, p.limit as int);
    lemma_places_match(p.parts, p.uuids);
    lemma_distinct_shown(p, parts);
    lemma_none_left_out(parts, p.uuids, p.limit as int);
    assert forall|k: int| 0 <= k < ps.len() implies {
        &&& is_call_of((#[trigger] cs[k]).action, parts[ps[k]], ps[k], p.uuids)
        &&& cs[k].label@ == "tool:"@ + parts[ps[k]]->FunctionCall_name@
        &&& cs[k].reason@ == "model proposed an immediate tool step"@
    } by {
        lemma_shown_kept(parts, p.uuids, p.limit as int, k);
        lemma_tool_at(p, k);
        assert(plan::candidates_view(cs)[k] == cs[k]@);
        assert(p.parts[ps[k]] == parts[ps[k]]@);
    }
    if ps.len() > 0 {
        lemma_tool_at(p, ps.len() - 1);
    }
}

/// What the model asks for is considered first: its calls, in its own order, each once, under its own
/// names and arguments.
pub proof fn law_calls_of_the_reply_come_first(
    session_id: &str,
    model_content: &Content,
    uuids: &Vec<[u8; 16]>,
    probe_history: bool,
    limit: usize,
    r: Vec<ActionCandidate>,
)
    requires
        limit > 0,
        call_ensures(
            plan::plan_candidates,
            (session_id, model_content, uuids, probe_history, limit),
            r,
        ),
    ensures
        exists|places: Seq<int>| #[trigger]
            calls_come_first(r@, model_content.parts@, uuids@, limit as int, places),
{
    let p = PlanInput {
        session_id: session_id@,
        parts: model_content@.parts,
        uuids: uuids@,
        probe_history,
        limit: limit as nat,
    };
    lemma_shown_come_first(r@, p, model_content.parts@);
}

/// Whether the candidates from place `n` on are what may follow the calls of a reply: its text as an
/// answer, then a look into the history, then a question to the user, as far as there is room.
pub open spec fn rest_follows(
    cs: Seq<ActionCandidate>,
    n: int,
    limit: int,
    answer: Seq<char>,
    probe: bool,
    session_id: Seq<char>,
    probe_id: Seq<char>,
) -> bool {
    let a = if n < limit && answer.len() > 0 {
        n + 1
    } else {
        n
    };
    let b = if a < limit && probe {
        a + 1
    } else {
        a
    };
    let c = if b < limit {
        b + 1
    } else {
        b
    };
    &&& cs.len() == c
    &&& a > n ==> (cs[n].action matches PlannedAction::Answer { text } && text@ == answer
        && cs[n].label@ == "answer:direct"@)
    &&& b > a ==> (cs[a].action matches PlannedAction::CallTool(call) && call.name@
        == "sessions_history"@ && call.args@ == "{\"limit\":6,\"session_id\":"@
        + encoding::json_string(session_id) + "}"@ && call.function_call_id@ == probe_id
        && cs[a].label@ == "context:history"@)
    &&& c > b ==> (cs[b].action matches PlannedAction::AskUser { question } && question@
        == "I need a bit more context to continue safely. What exact result should the next step produce?"@
        && cs[b].label@ == "clarify:user"@)
}

/// Behind the calls of a reply stand its text as an answer, where it says anything; a look into the
/// history, where there is one and the reply does not ask for it itself; and a question to the user;
/// each only where there is room.
pub proof fn law_other_ways_follow(
    session_id: &str,
    model_content: &Content,
    uuids: &Vec<[u8; 16]>,
    probe_history: bool,
    limit: usize,
    r: Vec<ActionCandidate>,
    answer: String,
)
    requires
        limit > 0,
        uuids@.len() == model_content.parts@.len() + 1,
        call_ensures(
            plan::plan_candidates,
            (session_id, model_content, uuids, probe_history, limit),
            r,
        ),
        call_ensures(util::extract_text, (model_content,), answer),
    ensures
        exists|places: Seq<int>| #[trigger]
            calls_come_first(r@, model_content.parts@, uuids@, limit as int, places)
                && rest_follows(
                r@,
                places.len() as int,
                limit as int,
                answer@,
                probe_history && forall|k: int|
                    0 <= k < places.len() ==> part_signature(
                        model_content.parts@[#[trigger] places[k]],
                    ) != util::signature_of(
                        "sessions_history"@,
                        "{\"limit\":6,\"session_id\":"@ + encoding::json_string(session_id@) + "}"@,
                    ),
                session_id@,
                "call-"@ + encoding::uuid_text(uuids@[model_content.parts@.len() as int]@),
            ),
{
    let p = PlanInput {
        session_id: session_id@,
        parts: model_content@.parts,
        uuids: uuids@,
        probe_history,
        limit: limit as nat,
    };
    let parts = model_content.parts@;
    let places = shown_places(p.parts, p.uuids, p.limit as int);
    lemma_shown_come_first(r@, p, parts);
    lemma_rest(r@, p, parts, answer@);
}

proof fn lemma_probe_absent(p: PlanInput, parts: Seq<Part>, wanted: Seq<char>)
    requires
        p.limit > 0,
        p.parts == content::parts_view(parts),
        kept_of(p.parts, p.uuids).len() < p.limit,
    ensures
        ({
            let places = shown_places(p.parts, p.uuids, p.limit as int);
            (forall|k: int|
                0 <= k < places.len() ==> part_signature(parts[#[trigger] places[k]]) != wanted)
                <==> !plan::any_signature(kept_of(p.parts, p.uuids), wanted)
        }),
{
    let places = shown_places(p.parts, p.uuids, p.limit as int);
    let kept = kept_of(p.parts, p.uuids);
    lemma_places_match(p.parts, p.uuids);
    if plan::any_signature(kept, wanted) {
        let i = choose|i: int|
            0 <= i < kept.len() && plan::call_signature(#[trigger] kept[i]) == wanted;
        lemma_shown_kept(parts, p.uuids, p.limit as int, i);
        assert(part_signature(parts[places[i]]) == wanted);
    } else {
        assert forall|k: int| 0 <= k < places.len() implies part_signature(
            parts[#[trigger] places[k]],
        ) != wanted by {
            lemma_shown_kept(parts, p.uuids, p.limit as int, k);
            assert(plan::call_signature(kept[k]) != wanted);
        }
    }
}

proof fn lemma_rest(cs: Seq<ActionCandidate>, p: PlanInput, parts: Seq<Part>, answer: Seq<char>)
    requires
        p.limit > 0,
        p.parts == content::parts_view(parts),
        plan::candidates_view(cs) == plan::candidates_of(p),
        answer == text::trimmed(util::text_of(p.parts)),
    ensures
        ({
            let places = shown_places(p.parts, p.uuids, p.limit as int);
            rest_follows(
                cs,
                places.len() as int,
                p.limit as int,
                answer,
                p.probe_history && forall|k: int|
                    0 <= k < places.len() ==> part_signature(parts[#[trigger] places[k]])
                        != util::signature_of(
                        "sessions_history"@,
                        "{\"limit\":6,\"session_id\":"@ + encoding::json_string(p.session_id)
                            + "}"@,
                    ),
                p.session_id,
                "call-"@ + encoding::uuid_text(p.uuids[parts.len() as int]@),
            )
        }),
{
    let kept = kept_of(p.parts, p.uuids);
    let cv = plan::candidates_view(cs);
    let n = shown_places(p.parts, p.uuids, p.limit as int).len() as int;
    lemma_places_match(p.parts, p.uuids);
    assert(cv.len() == cs.len());
    assert forall|i: int| 0 <= i < cs.len() implies (#[trigger] cs[i])@ == cv[i] by {}
    if kept.len() < p.limit {
        let uuid = p.uuids[p.parts.len() as int]@;
        let probe = plan::history_probe(p.session_id, uuid);
        let wanted = plan::call_signature(probe);
        lemma_probe_absent(p, parts, wanted);
        let tools = kept.map_values(|c: CallView| plan::tool_candidate(c));
        assert(tools.len() == n);
        let one = if answer.len() > 0 {
            tools.push(plan::answer_candidate(answer))
        } else {
            tools
        };
        let two = if p.probe_history && one.len() < p.limit && !plan::any_signature(kept, wanted) {
            one.push(plan::history_candidate(p.session_id, uuid))
        } else {
            one
        };
        let three = if two.len() < p.limit {
            two.push(plan::clarify_candidate())
        } else {
            two
        };
        assert(cv == three);
        if answer.len() > 0 {
            assert(one[n] == plan::answer_candidate(answer));
            assert(two[n] == one[n] && three[n] == one[n]);
            assert(cs[n]@ == cv[n]);
        }
        let a = one.len() as int;
        if two.len() > one.len() {
            assert(two[a] == plan::history_candidate(p.session_id, uuid));
            assert(three[a] == two[a]);
            assert(cs[a]@ == cv[a]);
        }
        let b = two.len() as int;
        if three.len() > two.len() {
            assert(three[b] == plan::clarify_candidate());
            assert(cs[b]@ == cv[b]);
        }
    }
}

/// Whether a call can be made: it is not one too many, does not repeat the last call and does not take
/// turns with it.
pub open spec fn call_can_be_made(
    name: Seq<char>,
    args: Seq<char>,
    st: TurnState,
    max_calls: usize,
) -> bool {
    let recent = st.recent_tool_signatures@;
    let n = recent.len() as int;
    let signature = util::signature_of(name, args);
    &&& st.tool_calls_executed < max_calls
    &&& n > 0 ==> recent[n - 1]@ != signature
    &&& n >= 3 && recent[n - 2]@ == signature && recent[n - 3]@ == recent[n - 1]@ ==> recent[n
        - 2]@ == recent[n - 3]@
}

/// Whether an action can be committed to: a call that is not one too many, does not repeat the last
/// call and does not take turns with it; or an answer that says something.
pub open spec fn can_be_done(action: PlannedAction, st: TurnState, max_calls: usize) -> bool {
    match action {
        PlannedAction::CallTool(call) => call_can_be_made(call.name@, call.args@, st, max_calls),
        PlannedAction::Answer { text } => !text::is_blank(text@),
        PlannedAction::AskUser { .. } => false,
    }
}

/// Whether an action is a question that says something.
pub open spec fn is_question(action: PlannedAction) -> bool {
    action matches PlannedAction::AskUser { question } && !text::is_blank(question@)
}

/// Whether the candidate at a place is to be chosen: the first that can be done; where there is none
/// the last question; where there is none either the first of all.
pub open spec fn is_choice(
    cs: Seq<ActionCandidate>,
    st: TurnState,
    max_calls: usize,
    k: int,
) -> bool {
    &&& 0 <= k < cs.len()
    &&& if exists|i: int| 0 <= i < cs.len() && can_be_done((#[trigger] cs[i]).action, st, max_calls) {
        can_be_done(cs[k].action, st, max_calls) && forall|i: int|
            0 <= i < k ==> !can_be_done((#[trigger] cs[i]).action, st, max_calls)
    } else if exists|i: int| 0 <= i < cs.len() && is_question((#[trigger] cs[i]).action) {
        is_question(cs[k].action) && forall|i: int|
            k < i < cs.len() ==> !is_question((#[trigger] cs[i]).action)
    } else {
        k == 0
    }
}

/// Whether two actions are the same.
pub open spec fn same_action(a: PlannedAction, b: PlannedAction) -> bool {
    match a {
        PlannedAction::CallTool(x) => b matches PlannedAction::CallTool(y) && x.name@ == y.name@
            && x.args@ == y.args@ && x.function_call_id@ == y.function_call_id@,
        PlannedAction::Answer { text: x } => b matches PlannedAction::Answer { text: y } && x@ == y@,
        PlannedAction::AskUser { question: x } => b matches PlannedAction::AskUser { question: y }
            && x@ == y@,
    }
}

proof fn lemma_objection(c: ActionCandidate, st: TurnState, max_calls: usize)
    ensures
        can_be_done(c.action, st, max_calls) == (plan::objection(c@, st@, max_calls as nat)
            is None),
        is_question(c.action) == plan::is_fallback(c@),
{
    let recent = st.recent_tool_signatures@;
    let seen = text::strings_view(recent);
    let n = recent.len() as int;
    if n >= 1 {
        assert(seen.last() == recent[n - 1]@);
        assert(seen[n - 1] == recent[n - 1]@);
    }
    if n >= 3 {
        assert(seen[n - 2] == recent[n - 2]@ && seen[n - 3] == recent[n - 3]@);
    }
}

proof fn lemma_first_viable(
    cs: Seq<ActionCandidate>,
    st: TurnState,
    max_calls: usize,
)
    ensures
        ({
            let k = plan::first_viable(plan::candidates_view(cs), st@, max_calls as nat);
            &&& 0 <= k <= cs.len()
            &&& k < cs.len() ==> can_be_done(cs[k].action, st, max_calls)
            &&& forall|i: int| 0 <= i < k ==> !can_be_done((#[trigger] cs[i]).action, st, max_calls)
        }),
    decreases cs.len(),
{
    let cv = plan::candidates_view(cs);
    if cs.len() > 0 {
        assert(cv[0] == cs[0]@);
        lemma_objection(cs[0], st, max_calls);
        let rest = cs.skip(1);
        assert(cv.skip(1) =~= plan::candidates_view(rest));
        lemma_first_viable(rest, st, max_calls);
        let k = plan::first_viable(cv, st@, max_calls as nat);
        if k > 0 {
            assert(rest.len() > k - 1 ==> rest[k - 1] == cs[k]);
            assert forall|i: int| 0 <= i < k implies !can_be_done(
                (#[trigger] cs[i]).action,
                st,
                max_calls,
            ) by {
                if i > 0 {
                    assert(rest[i - 1] == cs[i]);
                }
            }
        }
    }
}

proof fn lemma_last_question(cs: Seq<ActionCandidate>)
    ensures
        match plan::last_fallback(plan::candidates_view(cs)) {
            Some(k) => 0 <= k < cs.len() && is_question(cs[k].action) && forall|i: int|
                k < i < cs.len() ==> !is_question((#[trigger] cs[i]).action),
            None => forall|i: int| 0 <= i < cs.len() ==> !is_question((#[trigger] cs[i]).action),
        },
    decreases cs.len(),
{
    let cv = plan::candidates_view(cs);
    if cs.len() > 0 {
        let front = cs.drop_last();
        assert(cv.last() == cs.last()@);
        assert(cv.drop_last() =~= plan::candidates_view(front));
        assert(is_question(cs.last().action) == plan::is_fallback(cs.last()@));
        lemma_last_question(front);
        assert forall|i: int| 0 <= i < front.len() implies front[i] == #[trigger] cs[i] by {}
    }
}

/// The first thing that can be done is chosen; a question is put to the user only where nothing can
/// be done, and a refused action is taken only where there is no question either. What is recorded
/// marks the chosen one.
pub proof fn law_first_that_can_be_done_is_chosen(
    candidates: Vec<ActionCandidate>,
    st: &TurnState,
    max_calls: usize,
    r: SelectedAction,
)
    requires
        candidates@.len() > 0,
        call_ensures(plan::select_action, (candidates, st, max_calls), r),
    ensures
        r.candidate_traces@.len() == candidates@.len(),
        exists|k: int| #[trigger]
            is_choice(candidates@, *st, max_calls, k) && same_action(r.action, candidates@[k].action)
                && forall|i: int|
                0 <= i < candidates@.len() ==> ((#[trigger] r.candidate_traces@[i]).selected <==> i
                    == k),
{
    let cs = candidates@;
    let cv = plan::candidates_view(cs);
    lemma_first_viable(cs, *st, max_calls);
    lemma_last_question(cs);
    let k = plan::chosen(cv, st@, max_calls as nat);
    let v = plan::first_viable(cv, st@, max_calls as nat);
    if v >= cs.len() {
        assert forall|i: int| 0 <= i < cs.len() implies !can_be_done(
            (#[trigger] cs[i]).action,
            *st,
            max_calls,
        ) by {}
    } else {
        assert(can_be_done(cs[v].action, *st, max_calls));
    }
    assert(is_choice(cs, *st, max_calls, k));
    assert(cv[k] == cs[k]@);
    assert(same_action(r.action, cs[k].action));
    let ts = plan::candidate_traces_view(r.candidate_traces@);
    assert(ts == r@.traces);
    assert(ts.len() == cv.len());
    assert forall|i: int| 0 <= i < cs.len() implies ((#[trigger] r.candidate_traces@[i]).selected
        <==> i == k) by {
        assert(ts[i] == r.candidate_traces@[i]@);
        assert(ts[i] == plan::trace_of(cv, st@, max_calls as nat, i));
    }
}

/// Each candidate is recorded: what it is, how it reads, and why it was or was not chosen.
pub proof fn law_candidates_are_recorded(
    candidates: Vec<ActionCandidate>,
    st: &TurnState,
    max_calls: usize,
    r: SelectedAction,
    i: int,
    kind: &str,
    preview: String,
)
    requires
        candidates@.len() > 0,
        call_ensures(plan::select_action, (candidates, st, max_calls), r),
        0 <= i < candidates@.len(),
        call_ensures(plan::candidate_action_type, (&candidates@[i].action,), kind),
        call_ensures(plan::candidate_preview, (&candidates@[i].action,), preview),
    ensures
        r.candidate_traces@.len() == candidates@.len(),
        ({
            let trace = r.candidate_traces@[i];
            &&& trace.label@ == candidates@[i].label@
            &&& trace.action_type@ == kind@
            &&& trace.preview@ == preview@
            &&& trace.selected ==> {
                &&& r.selected_preview@ == preview@
                &&& r.selection_reason@ == trace.reason@
            }
        }),
        candidates@[i].action is CallTool ==> kind@ == "call_tool"@,
        candidates@[i].action is Answer ==> kind@ == "answer"@,
        candidates@[i].action is AskUser ==> kind@ == "ask_user"@,
{
    let cv = plan::candidates_view(candidates@);
    let ts = plan::candidate_traces_view(r.candidate_traces@);
    assert(ts == r@.traces && ts.len() == cv.len());
    assert(ts[i] == r.candidate_traces@[i]@);
    assert(ts[i] == plan::trace_of(cv, st@, max_calls as nat, i));
    assert(cv[i] == candidates@[i]@);
}

/// Why a candidate was passed over, and why one was chosen, is told in so many words.
pub proof fn law_reasons_are_given(
    candidates: Vec<ActionCandidate>,
    st: &TurnState,
    max_calls: usize,
    r: SelectedAction,
    i: int,
)
    requires
        candidates@.len() > 0,
        call_ensures(plan::select_action, (candidates, st, max_calls), r),
        0 <= i < candidates@.len(),
        r.candidate_traces@.len() == candidates@.len(),
    ensures
        ({
            let c = candidates@[i];
            let trace = r.candidate_traces@[i];
            let done = can_be_done(c.action, *st, max_calls);
            &&& done && trace.selected && c.action is CallTool ==> trace.reason@ == c.reason@
                + "; selected the first viable committed tool step"@
            &&& done && trace.selected && c.action is Answer ==> trace.reason@ == c.reason@
                + "; selected the direct answer because no earlier viable tool candidate won"@
            &&& trace.selected && is_question(c.action) ==> trace.reason@
                == "selected the clarification branch because no safe tool or final answer candidate remained"@
            &&& done && !trace.selected ==> trace.reason@
                == "not selected because an earlier candidate won"@
        }),
{
    let cs = candidates@;
    let cv = plan::candidates_view(cs);
    let ts = plan::candidate_traces_view(r.candidate_traces@);
    lemma_first_viable(cs, *st, max_calls);
    lemma_last_question(cs);
    assert(ts == r@.traces && ts.len() == cv.len());
    assert(ts[i] == r.candidate_traces@[i]@);
    assert(ts[i] == plan::trace_of(cv, st@, max_calls as nat, i));
    assert(cv[i] == cs[i]@);
    lemma_objection(cs[i], *st, max_calls);
}

/// How an action reads: a call by its name and its arguments, an answer or a question by its words.
pub proof fn law_previews_show_the_action(
    action: &PlannedAction,
    r: String,
    inner: &str,
    words: String,
    args: String,
)
    requires
        call_ensures(plan::candidate_preview, (action,), r),
        call_ensures(util::preview_text, (inner, 160), words),
        call_ensures(util::preview_json, (inner, 120), args),
    ensures
        match *action {
            PlannedAction::CallTool(call) => inner@ == call.args@ ==> r@ == call.name@ + "("@ + args@
                + ")"@,
            PlannedAction::Answer { text } => inner@ == text@ ==> r@ == words@,
            PlannedAction::AskUser { question } => inner@ == question@ ==> r@ == words@,
        },
{
}

/// A turn remembers its calls in order, at most the latest four.
pub proof fn law_calls_are_remembered_in_order(st: &mut TurnState, signature: String)
    requires
        call_ensures(TurnState::push_tool_signature, (st, signature), ()),
        old(st).recent_tool_signatures@.len() <= 4,
    ensures
        ({
            let before = text::strings_view(old(st).recent_tool_signatures@);
            let after = text::strings_view(final(st).recent_tool_signatures@);
            &&& after.len() <= 4
            &&& after.last() == signature@
            &&& before.len() < 4 ==> after == before.push(signature@)
            &&& before.len() == 4 ==> after == before.skip(1).push(signature@)
        }),
        final(st).tool_calls_executed == old(st).tool_calls_executed,
        final(st).tool_errors == old(st).tool_errors,
{
}

/// A call repeats the last one exactly where it is the same; it takes turns exactly where it is the
/// one before the last, the last is the one before that, and the two differ.
pub proof fn law_repetition_is_recognized(
    st: &TurnState,
    signature: &str,
    repeats: bool,
    ping_pongs: bool,
)
    requires
        call_ensures(TurnState::would_repeat_exact, (st, signature), repeats),
        call_ensures(TurnState::would_ping_pong, (st, signature), ping_pongs),
    ensures
        ({
            let recent = st.recent_tool_signatures@;
            let n = recent.len() as int;
            &&& repeats <==> n >= 1 && recent[n - 1]@ == signature@
            &&& ping_pongs <==> n >= 3 && recent[n - 2]@ == signature@ && recent[n - 1]@
                == recent[n - 3]@ && recent[n - 1]@ != recent[n - 2]@
        }),
{
    let recent = st.recent_tool_signatures@;
    let seen = text::strings_view(recent);
    let n = recent.len() as int;
    if n >= 1 {
        assert(seen.last() == recent[n - 1]@ && seen[n - 1] == recent[n - 1]@);
    }
    if n >= 3 {
        assert(seen[n - 2] == recent[n - 2]@ && seen[n - 3] == recent[n - 3]@);
    }
}

/// Why a candidate before the chosen one was refused is told: too many calls, the last call again, two
/// calls that take turns, or nothing to say; a question is only kept for later.
pub proof fn law_refusals_are_given(
    candidates: Vec<ActionCandidate>,
    st: &TurnState,
    max_calls: usize,
    r: SelectedAction,
    i: int,
)
    requires
        candidates@.len() > 0,
        call_ensures(plan::select_action, (candidates, st, max_calls), r),
        0 <= i < candidates@.len(),
        r.candidate_traces@.len() == candidates@.len(),
        !r.candidate_traces@[i].selected,
        forall|j: int|
            0 <= j < i ==> !can_be_done((#[trigger] candidates@[j]).action, *st, max_calls),
        !can_be_done(candidates@[i].action, *st, max_calls),
    ensures
        ({
            let why = r.candidate_traces@[i].reason@;
            let recent = st.recent_tool_signatures@;
            let n = recent.len() as int;
            match candidates@[i].action {
                PlannedAction::CallTool(call) => if st.tool_calls_executed >= max_calls {
                    why == "rejected by max_tool_calls_per_turn guard"@
                } else if n > 0 && recent[n - 1]@ == util::signature_of(call.name@, call.args@) {
                    why == "rejected by repeated-call detection (same tool + same args)"@
                } else {
                    why == "rejected by repeated-call detection (A/B ping-pong)"@
                },
                PlannedAction::Answer { .. } => why == "rejected because the answer text is empty"@,
                PlannedAction::AskUser { question } => if text::is_blank(question@) {
                    why == "rejected because the clarification question is empty"@
                } else {
                    why == "kept as a fallback clarification branch"@
                },
            }
        }),
{
    let cs = candidates@;
    let cv = plan::candidates_view(cs);
    let ts = plan::candidate_traces_view(r.candidate_traces@);
    lemma_first_viable(cs, *st, max_calls);
    assert(ts == r@.traces && ts.len() == cv.len());
    assert(ts[i] == r.candidate_traces@[i]@);
    assert(ts[i] == plan::trace_of(cv, st@, max_calls as nat, i));
    assert(cv[i] == cs[i]@);
    lemma_objection(cs[i], *st, max_calls);
    let v = plan::first_viable(cv, st@, max_calls as nat);
    if v <= i {
        assert(can_be_done(cs[v].action, *st, max_calls));
    }
    let recent = st.recent_tool_signatures@;
    let seen = text::strings_view(recent);
    let n = recent.len() as int;
    if n >= 1 {
        assert(seen.last() == recent[n - 1]@);
    }
}

} // verus!
