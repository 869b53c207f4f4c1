//! What holds of the search that commits only what hits its target.

use vstd::prelude::*;
use vstd::string::*;

use crate::backtracking;
use crate::backtracking::{
    BranchStatus, Planner, RunView, SearchProblem, SearchReport, StepView, ThoughtDirection,
    ThoughtDirectionRegistry, ToolKind, WorkspaceState, WorkspaceView,
};
use crate::number;
use crate::text;

verus! {

/// The size of a number.
pub open spec fn size(n: int) -> int {
    if n < 0 {
        -n
    } else {
        n
    }
}

/// Tools go by their names, and do what these say.
pub proof fn law_tools_do_what_they_say(tool: ToolKind, r: &str, a: int, b: int)
    requires
        call_ensures(ToolKind::as_name, (tool,), r),
    ensures
        tool is Add ==> r@ == "math_add"@ && tool.apply(a, b) == a + b,
        tool is Mul ==> r@ == "math_mul"@ && tool.apply(a, b) == a * b,
{
}

/// A planner has one tool for each operand: sums alone, products alone, or a sum, a product and a sum
/// in turn.
pub proof fn law_plans_have_one_tool_each(planner: Planner, n: usize, r: Vec<ToolKind>)
    requires
        call_ensures(Planner::plan, (planner, n), r),
    ensures
        r@.len() == n,
        forall|i: int| 0 <= i < n ==> (planner is AddAll ==> (#[trigger] r@[i]) is Add),
        forall|i: int| 0 <= i < n ==> (planner is MulAll ==> (#[trigger] r@[i]) is Mul),
        forall|i: int|
            0 <= i < n ==> (planner is AddMulAdd ==> ((#[trigger] r@[i]) is Mul <==> i % 3 == 1)),
{
}

/// A number that hits the target ends a direction well; one more than four times as large as the
/// target, and more than four, is given up; any other is a dead end once no operand is left, and goes
/// on before.
pub proof fn law_numbers_are_judged(
    target: i64,
    current: i64,
    left: usize,
    r: (Option<BranchStatus>, String),
)
    requires
        call_ensures(backtracking::inspect_execution, (target, current, left), r),
    ensures
        r.0 == Some(BranchStatus::Success) <==> current == target,
        r.0 == Some(BranchStatus::Pruned) <==> current != target && size(current as int) > 4 && size(
            current as int,
        ) > 4 * size(target as int),
        r.0 == Some(BranchStatus::DeadEnd) <==> current != target && !(size(current as int) > 4
            && size(current as int) > 4 * size(target as int)) && left == 0,
        r.0 is None <==> current != target && !(size(current as int) > 4 && size(current as int) > 4
            * size(target as int)) && left > 0,
        r.0 is None ==> r.1@ == "保留当前思路继续执行；当前值 "@ + number::signed_decimal(
            current as int,
        ) + "，距离目标 "@ + number::signed_decimal(target as int) + " 还有 "@ + number::decimal(
            left as nat,
        ) + " 个操作数可用。"@,
        r.0 == Some(BranchStatus::Pruned) ==> r.1@ == "当前值 "@ + number::signed_decimal(
            current as int,
        ) + " 明显偏离目标 "@ + number::signed_decimal(target as int)
            + "，剪枝并回溯到下一个思考方向。"@,
        r.0 == Some(BranchStatus::DeadEnd) ==> r.1@ == "线性 tool loop 已走完，但当前值 "@
            + number::signed_decimal(current as int) + " 仍未命中目标 "@ + number::signed_decimal(
            target as int,
        ) + "。"@,
        r.1@ == backtracking::noted(target as int, current as int, left as nat),
        r.0 == Some(BranchStatus::Success) ==> r.1@ == "命中目标 "@ + number::signed_decimal(
            target as int,
        ) + "，当前分支可以提交。"@,
{
}

/// One step of a run: the next tool on the next operand.
pub proof fn law_run_goes_step_by_step(
    operands: Seq<i64>,
    target: int,
    s: WorkspaceView,
    plan: Seq<ToolKind>,
    i: int,
    steps: Seq<StepView>,
)
    requires
        0 <= i,
    ensures
        ({
            let run = backtracking::run_from(operands, target, s, plan, i, steps);
            if i < plan.len() && s.cursor < operands.len() {
                let operand = operands[s.cursor as int] as int;
                let value = if plan[i] is Add {
                    s.current + operand
                } else {
                    s.current * operand
                };
                let left = (operands.len() - s.cursor - 1) as nat;
                let next = backtracking::stepped(s, plan[i], operand);
                let ended = backtracking::judged(target, value, left);
                &&& next.current == value
                &&& next.cursor == s.cursor + 1
                &&& next.effects.len() == s.effects.len() + 1
                &&& next.effects.take(s.effects.len() as int) == s.effects
                &&& next.effects.last() == plan[i].name() + "("@ + number::signed_decimal(s.current)
                    + ", "@ + number::signed_decimal(operand) + ") = "@ + number::signed_decimal(
                    value,
                )
                &&& ended matches Some(status) ==> run.status == status && run.state == next
                &&& ended is None ==> run == backtracking::run_from(
                    operands,
                    target,
                    next,
                    plan,
                    i + 1,
                    steps.push(backtracking::step_record(operands, target, s, plan[i], i as nat)),
                )
            } else {
                &&& run.state == s
                &&& run.steps == steps
                &&& run.status == if s.current == target {
                    BranchStatus::Success
                } else {
                    BranchStatus::DeadEnd
                }
            }
        }),
{
    if i < plan.len() && s.cursor < operands.len() {
        let operand = operands[s.cursor as int] as int;
        let next = backtracking::stepped(s, plan[i], operand);
        assert(next.effects.take(s.effects.len() as int) =~= s.effects);
    }
}

/// What is recorded of a step is what was done: the tool, the two numbers and what came of them.
pub proof fn law_steps_are_recorded(
    operands: Seq<i64>,
    target: int,
    s: WorkspaceView,
    tool: ToolKind,
    index: nat,
)
    requires
        s.cursor < operands.len(),
    ensures
        ({
            let r = backtracking::step_record(operands, target, s, tool, index);
            let operand = operands[s.cursor as int] as int;
            let value = if tool is Add {
                s.current + operand
            } else {
                s.current * operand
            };
            &&& r.step == index + 1
            &&& r.tool == tool.name()
            &&& r.args == "{\"a\":"@ + number::signed_decimal(s.current) + ",\"b\":"@
                + number::signed_decimal(operand) + "}"@
            &&& r.output == "{\"value\":"@ + number::signed_decimal(value) + "}"@
            &&& r.observation == backtracking::noted(
                target,
                value,
                (operands.len() - s.cursor - 1) as nat,
            )
        }),
{
}

/// What a search reports is what there is: a plan was found exactly where some direction ends at the
/// target, the first such one is committed, and else the start is left as it was.
pub proof fn law_search_reports_what_there_is(
    problem: &SearchProblem,
    registry: &ThoughtDirectionRegistry,
    r: SearchReport,
)
    requires
        call_ensures(backtracking::search, (problem, registry), r),
    ensures
        ({
            let start = WorkspaceView {
                current: problem.start as int,
                cursor: 0,
                effects: Seq::empty(),
            };
            let ends = |d: int|
                backtracking::trial(
                    problem.operands@,
                    problem.target as int,
                    registry.items@[d],
                    start,
                ).state;
            &&& r.status@ == "found_plan"@ || r.status@ == "not_found"@
            &&& r.status@ == "found_plan"@ <==> exists|d: int|
                0 <= d < registry.items@.len() && (#[trigger] ends(d)).current == problem.target
            &&& r.status@ == "found_plan"@ ==> r.committed_state.current == problem.target
            &&& r.status@ == "not_found"@ ==> r.committed_state@ == start
            &&& r.problem.start == problem.start
            &&& r.problem.target == problem.target
            &&& r.problem.operands@ == problem.operands@
            &&& r.loaded_directions@.len() == registry.items@.len()
            &&& forall|i: int|
                0 <= i < registry.items@.len() ==> (#[trigger] r.loaded_directions@[i])@
                    == registry.items@[i].name@
        }),
{
    reveal_strlit("found_plan");
    reveal_strlit("not_found");
    assert("found_plan"@.len() != "not_found"@.len());
    let start = WorkspaceView { current: problem.start as int, cursor: 0, effects: Seq::empty() };
    let o = problem.operands@;
    let t = problem.target as int;
    let ds = registry.items@;
    let ends = |d: int| backtracking::trial(o, t, ds[d], start).state;
    backtracking::law_search_finds_what_there_is(o, t, ds, 0, start);
    let k = backtracking::first_hit(o, t, ds, 0, start);
    if k < ds.len() {
        assert(ends(k).current == problem.target);
    } else {
        assert forall|d: int| 0 <= d < ds.len() implies (#[trigger] ends(d)).current
            != problem.target by {
            assert(backtracking::trial(o, t, ds[d], start).state.current != t);
        }
    }
    let names = text::strings_view(r.loaded_directions@);
    assert(names.len() == r.loaded_directions@.len());
    assert forall|i: int| 0 <= i < ds.len() implies (#[trigger] r.loaded_directions@[i])@
        == ds[i].name@ by {
        assert(names[i] == r.loaded_directions@[i]@);
    }
}

/// What a direction ends as decides what is done with it: only what hits the target is committed.
pub proof fn law_only_success_is_committed(status: BranchStatus, name: &str, decision: &str)
    requires
        call_ensures(BranchStatus::as_str, (status,), name),
        call_ensures(BranchStatus::decision, (status,), decision),
    ensures
        status is Success ==> name@ == "success"@ && decision@ == "commit"@,
        status is DeadEnd ==> name@ == "dead_end"@ && decision@ == "rollback"@,
        status is Pruned ==> name@ == "pruned"@ && decision@ == "rollback"@,
{
}

/// Why a direction ended is told with the numbers that decided it.
pub proof fn law_endings_are_told(target: i64, current: i64, status: BranchStatus, r: String)
    requires
        call_ensures(backtracking::branch_reason, (target, current, status), r),
    ensures
        status is Success ==> r@ == "分支命中目标 "@ + number::signed_decimal(target as int)
            + "，提交副作用并保留当前调用链。"@,
        status is DeadEnd ==> r@ == "分支执行完成但停在 "@ + number::signed_decimal(current as int)
            + "，未命中目标 "@ + number::signed_decimal(target as int) + "，回滚副作用。"@,
        status is Pruned ==> r@ == "分支中途被剪枝，当前值 "@ + number::signed_decimal(
            current as int,
        ) + " 已明显偏离目标 "@ + number::signed_decimal(target as int) + "，回滚副作用。"@,
{
}

/// A direction is tried from the committed state with its own plan, one tool for each operand that is
/// left.
pub proof fn law_direction_is_tried_from_the_start(
    operands: Seq<i64>,
    target: int,
    d: ThoughtDirection,
    s: WorkspaceView,
    left: usize,
    plan: Vec<ToolKind>,
)
    requires
        s.cursor <= operands.len(),
        left == operands.len() - s.cursor,
        call_ensures(Planner::plan, (d.planner, left), plan),
    ensures
        backtracking::trial(operands, target, d, s) == backtracking::run_from(
            operands,
            target,
            s,
            plan@,
            0,
            Seq::empty(),
        ),
{
}

/// A run does what its plan says to the state that it is given, and tells why it ended.
pub proof fn law_run_is_carried_out(
    problem: &SearchProblem,
    sandbox: &mut WorkspaceState,
    plan: &Vec<ToolKind>,
    r: backtracking::BranchOutcome,
)
    requires
        call_ensures(backtracking::run_linear_tool_loop, (problem, sandbox, plan), r),
    ensures
        ({
            let run = backtracking::run_from(
                problem.operands@,
                problem.target as int,
                old(sandbox)@,
                plan@,
                0,
                Seq::empty(),
            );
            &&& final(sandbox)@ == run.state
            &&& r.status == run.status
            &&& backtracking::steps_view(r.tool_calls@) == run.steps
        }),
{
}

/// Each direction that was tried is on record, in order, as it is: its name and thought, its plan,
/// where it began and ended, how and why, and what is done about it.
pub proof fn law_attempts_are_recorded(
    problem: &SearchProblem,
    registry: &ThoughtDirectionRegistry,
    r: SearchReport,
    i: int,
)
    requires
        call_ensures(backtracking::search, (problem, registry), r),
        0 <= i < r.attempts@.len(),
    ensures
        i < registry.items@.len(),
        ({
            let a = r.attempts@[i];
            let d = registry.items@[i];
            let start = WorkspaceView {
                current: problem.start as int,
                cursor: 0,
                effects: Seq::empty(),
            };
            let run = backtracking::trial(problem.operands@, problem.target as int, d, start);
            &&& a.direction@ == d.name@
            &&& a.thought@ == d.thought@
            &&& a.sandbox_before@ == start
            &&& a.sandbox_after@ == run.state
            &&& backtracking::steps_view(a.tool_calls@) == run.steps
            &&& run.status is Success ==> a.status@ == "success"@ && a.decision@ == "commit"@
            &&& run.status is DeadEnd ==> a.status@ == "dead_end"@ && a.decision@ == "rollback"@
            &&& run.status is Pruned ==> a.status@ == "pruned"@ && a.decision@ == "rollback"@
            &&& a.reason@ == backtracking::reason_of(
                problem.target as int,
                run.state.current,
                run.status,
            )
            &&& a.planned_tools@.len() == problem.operands@.len()
            &&& run.status is Success ==> i == r.attempts@.len() - 1
        }),
{
    let start = WorkspaceView { current: problem.start as int, cursor: 0, effects: Seq::empty() };
    let all = backtracking::attempts_view(r.attempts@);
    let o = problem.operands@;
    let t = problem.target as int;
    let ds = registry.items@;
    assert(all == backtracking::attempts_from(o, t, ds, 0, start));
    assert(all.len() == r.attempts@.len());
    assert(all[i] == r.attempts@[i]@);
    lemma_attempt_at(o, t, ds, 0, start, i);
    let names = text::strings_view(r.attempts@[i].planned_tools@);
    assert(names.len() == r.attempts@[i].planned_tools@.len());
}

proof fn lemma_attempt_at(
    o: Seq<i64>,
    t: int,
    ds: Seq<ThoughtDirection>,
    index: int,
    s: WorkspaceView,
    i: int,
)
    requires
        0 <= index,
        0 <= i < backtracking::attempts_from(o, t, ds, index, s).len(),
    ensures
        index + i < ds.len(),
        backtracking::attempts_from(o, t, ds, index, s)[i] == backtracking::attempt_of(
            o,
            t,
            ds[index + i],
            s,
        ),
        backtracking::trial(o, t, ds[index + i], s).status is Success ==> i
            == backtracking::attempts_from(o, t, ds, index, s).len() - 1,
    decreases ds.len() - index,
{
    if index < ds.len() && i > 0 {
        let rest = backtracking::attempts_from(o, t, ds, index + 1, s);
        let all = backtracking::attempts_from(o, t, ds, index, s);
        assert(all == seq![backtracking::attempt_of(o, t, ds[index], s)] + rest);
        assert(all[i] == rest[i - 1]);
        lemma_attempt_at(o, t, ds, index + 1, s, i - 1);
    }
}

/// The directions that are tried: sums first, then products, then both in turn.
pub proof fn law_usual_directions(r: ThoughtDirectionRegistry)
    requires
        call_ensures(ThoughtDirectionRegistry::default, (), r),
    ensures
        r.items@.len() == 3,
        r.items@[0].name@ == "sum-first"@,
        r.items@[0].planner is AddAll,
        r.items@[1].name@ == "multiply-first"@,
        r.items@[1].planner is MulAll,
        r.items@[2].name@ == "bridge-plan"@,
        r.items@[2].planner is AddMulAdd,
{
}

/// A direction that is added is tried behind the others.
pub proof fn law_directions_are_added_behind(
    registry: &mut ThoughtDirectionRegistry,
    d: ThoughtDirection,
)
    requires
        call_ensures(ThoughtDirectionRegistry::register, (registry, d), ()),
    ensures
        final(registry).items@ == old(registry).items@.push(d),
{
}

} // verus!
