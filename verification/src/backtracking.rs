//! A search that tries one direction of thought after another: each works on a copy of the state,
//! and only a direction that hits the target is committed.

use vstd::prelude::*;
use vstd::string::*;

use crate::number;
use crate::text;

verus! {

/// What is to be reached, and from what.
#[derive(Debug)]
pub struct SearchProblem {
    pub start: i64,
    pub operands: Vec<i64>,
    pub target: i64,
}

impl Clone for SearchProblem {
    fn clone(&self) -> (r: Self)
        ensures
            r.start == self.start,
            r.operands@ == self.operands@,
            r.target == self.target,
    {
        let operands = self.operands.clone();
        assert(operands@ =~= self.operands@);
        SearchProblem { start: self.start, operands, target: self.target }
    }
}

/// The tools that a direction can use.
#[derive(Debug, Clone, Copy, PartialEq, Eq, Structural)]
pub enum ToolKind {
    Add,
    Mul,
}

impl ToolKind {
    /// The name of a tool.
    pub open spec fn name(self) -> Seq<char> {
        match self {
            ToolKind::Add => "math_add"@,
            ToolKind::Mul => "math_mul"@,
        }
    }

    /// Names a tool.
    pub fn as_name(self) -> (r: &'static str)
        ensures
            r@ == self.name(),
    {
        match self {
            ToolKind::Add => "math_add",
            ToolKind::Mul => "math_mul",
        }
    }

    /// What a tool makes of two numbers.
    pub open spec fn apply(self, a: int, b: int) -> int {
        match self {
            ToolKind::Add => a + b,
            ToolKind::Mul => a * b,
        }
    }
}

/// How a direction uses the tools.
#[derive(Debug, Clone, Copy, PartialEq, Eq, Structural)]
pub enum Planner {
    AddAll,
    MulAll,
    AddMulAdd,
}

/// The tools that a planner uses for a number of operands.
pub open spec fn planned(planner: Planner, n: nat) -> Seq<ToolKind> {
    Seq::new(
        n,
        |i: int|
            match planner {
                Planner::AddAll => ToolKind::Add,
                Planner::MulAll => ToolKind::Mul,
                Planner::AddMulAdd => if i % 3 == 1 {
                    ToolKind::Mul
                } else {
                    ToolKind::Add
                },
            },
    )
}

impl Planner {
    /// Lists the tools for a number of operands.
    pub fn plan(self, remaining_operands: usize) -> (r: Vec<ToolKind>)
        ensures
            r@ == planned(self, remaining_operands as nat),
    {
        let mut out: Vec<ToolKind> = Vec::new();
        let mut i: usize = 0;
        while i < remaining_operands
            invariant
                i <= remaining_operands,
                out@ == planned(self, i as nat),
            decreases remaining_operands - i,
        {
            let tool = match self {
                Planner::AddAll => ToolKind::Add,
                Planner::MulAll => ToolKind::Mul,
                Planner::AddMulAdd => if i % 3 == 1 {
                    ToolKind::Mul
                } else {
                    ToolKind::Add
                },
            };
            out.push(tool);
            i = i + 1;
            assert(out@ =~= planned(self, i as nat));
        }
        out
    }
}

/// A direction of thought.
#[derive(Debug, Clone, Copy)]
pub struct ThoughtDirection {
    pub name: &'static str,
    pub thought: &'static str,
    pub planner: Planner,
}

/// The directions that are tried, in order.
#[derive(Debug)]
pub struct ThoughtDirectionRegistry {
    pub items: Vec<ThoughtDirection>,
}

impl Default for ThoughtDirectionRegistry {
    /// Sums first, then products, then both in turn.
    fn default() -> (r: Self)
        ensures
            r.items@.len() == 3,
            r.items@[0].name@ == "sum-first"@,
            r.items@[0].thought@ == "先走最保守的加法链路，验证不依赖复杂切换时能否命中目标。"@,
            r.items@[0].planner == Planner::AddAll,
            r.items@[1].name@ == "multiply-first"@,
            r.items@[1].thought@ == "优先尝试乘法放大，如果执行反馈明显偏离目标就立刻剪枝回溯。"@,
            r.items@[1].planner == Planner::MulAll,
            r.items@[2].name@ == "bridge-plan"@,
            r.items@[2].thought@ == "先加再乘再加，把中间结果桥接到目标值，作为默认第三个思考方向。"@,
            r.items@[2].planner == Planner::AddMulAdd,
    {
        let mut registry = ThoughtDirectionRegistry { items: Vec::new() };
        registry.register(
            ThoughtDirection {
                name: "sum-first",
                thought: "先走最保守的加法链路，验证不依赖复杂切换时能否命中目标。",
                planner: Planner::AddAll,
            },
        );
        registry.register(
            ThoughtDirection {
                name: "multiply-first",
                thought: "优先尝试乘法放大，如果执行反馈明显偏离目标就立刻剪枝回溯。",
                planner: Planner::MulAll,
            },
        );
        registry.register(
            ThoughtDirection {
                name: "bridge-plan",
                thought: "先加再乘再加，把中间结果桥接到目标值，作为默认第三个思考方向。",
                planner: Planner::AddMulAdd,
            },
        );
        registry
    }
}

impl ThoughtDirectionRegistry {
    /// Adds a direction behind the others.
    pub fn register(&mut self, direction: ThoughtDirection)
        ensures
            final(self).items@ == old(self).items@.push(direction),
    {
        self.items.push(direction);
    }

    /// The names of the directions, in order.
    pub fn names(&self) -> (r: Vec<String>)
        ensures
            text::strings_view(r@) == self.items@.map_values(|d: ThoughtDirection| d.name@),
    {
        let mut out: Vec<String> = Vec::new();
        let mut i: usize = 0;
        while i < self.items.len()
            invariant
                i <= self.items@.len(),
                out@.len() == i,
                forall|j: int| 0 <= j < i ==> (#[trigger] out@[j])@ == self.items@[j].name@,
            decreases self.items@.len() - i,
        {
            out.push(self.items[i].name.to_owned());
            i = i + 1;
        }
        assert(text::strings_view(out@) =~= self.items@.map_values(
            |d: ThoughtDirection| d.name@,
        ));
        out
    }
}

/// The state that a direction works on.
#[derive(Debug)]
pub struct WorkspaceState {
    pub current: i64,
    pub cursor: usize,
    pub pending_effects: Vec<String>,
}

/// The contents of a state.
#[verifier::ext_equal]
pub struct WorkspaceView {
    pub current: int,
    pub cursor: nat,
    pub effects: Seq<Seq<char>>,
}

impl View for WorkspaceState {
    type V = WorkspaceView;

    open spec fn view(&self) -> WorkspaceView {
        WorkspaceView {
            current: self.current as int,
            cursor: self.cursor as nat,
            effects: text::strings_view(self.pending_effects@),
        }
    }
}

impl Clone for WorkspaceState {
    fn clone(&self) -> (r: Self)
        ensures
            r@ == self@,
    {
        let pending_effects = self.pending_effects.clone();
        assert(text::strings_view(pending_effects@) =~= text::strings_view(self.pending_effects@));
        WorkspaceState { current: self.current, cursor: self.cursor, pending_effects }
    }
}

impl WorkspaceState {
    /// The state before anything was tried.
    pub fn new(start: i64) -> (r: Self)
        ensures
            r@ == (WorkspaceView { current: start as int, cursor: 0, effects: Seq::empty() }),
    {
        let r = WorkspaceState { current: start, cursor: 0, pending_effects: Vec::new() };
        assert(r@.effects =~= Seq::empty());
        r
    }
}

/// How a direction ended.
#[derive(Debug, Clone, Copy, PartialEq, Eq, Structural)]
pub enum BranchStatus {
    Success,
    DeadEnd,
    Pruned,
}

impl BranchStatus {
    /// The name of a status.
    pub open spec fn name(self) -> Seq<char> {
        match self {
            BranchStatus::Success => "success"@,
            BranchStatus::DeadEnd => "dead_end"@,
            BranchStatus::Pruned => "pruned"@,
        }
    }

    /// Names a status.
    pub fn as_str(self) -> (r: &'static str)
        ensures
            r@ == self.name(),
    {
        match self {
            BranchStatus::Success => "success",
            BranchStatus::DeadEnd => "dead_end",
            BranchStatus::Pruned => "pruned",
        }
    }

    /// What is done with the state of a direction that ended.
    pub open spec fn verdict(self) -> Seq<char> {
        match self {
            BranchStatus::Success => "commit"@,
            _ => "rollback"@,
        }
    }

    /// Names what is done with the state of a direction that ended.
    pub fn decision(self) -> (r: &'static str)
        ensures
            r@ == self.verdict(),
    {
        match self {
            BranchStatus::Success => "commit",
            _ => "rollback",
        }
    }
}

/// What is recorded of a tool call; arguments and output are JSON text.
#[derive(Debug)]
pub struct StepTrace {
    pub step: usize,
    pub tool: String,
    pub args: String,
    pub output: String,
    pub observation: String,
}

/// The contents of such a record.
pub struct StepView {
    pub step: nat,
    pub tool: Seq<char>,
    pub args: Seq<char>,
    pub output: Seq<char>,
    pub observation: Seq<char>,
}

impl View for StepTrace {
    type V = StepView;

    open spec fn view(&self) -> StepView {
        StepView {
            step: self.step as nat,
            tool: self.tool@,
            args: self.args@,
            output: self.output@,
            observation: self.observation@,
        }
    }
}

/// The contents of a list of such records.
pub open spec fn steps_view(ts: Seq<StepTrace>) -> Seq<StepView> {
    ts.map_values(|t: StepTrace| t@)
}

/// The size of a number.
pub open spec fn magnitude(n: int) -> int {
    if n < 0 {
        -n
    } else {
        n
    }
}

/// How far off the target a number may be.
pub open spec fn reach(target: int) -> int {
    if magnitude(target) > 1 {
        magnitude(target) * 4
    } else {
        4
    }
}

/// Whether a number ends a direction: the target does, and so does a number far off, and so does
/// any other once the operands are used up.
pub open spec fn judged(target: int, current: int, remaining: nat) -> Option<BranchStatus> {
    if current == target {
        Some(BranchStatus::Success)
    } else if magnitude(current) > reach(target) {
        Some(BranchStatus::Pruned)
    } else if remaining == 0 {
        Some(BranchStatus::DeadEnd)
    } else {
        None
    }
}

/// What is noted of a number.
pub open spec fn noted(target: int, current: int, remaining: nat) -> Seq<char> {
    match judged(target, current, remaining) {
        Some(BranchStatus::Success) => "命中目标 "@ + number::signed_decimal(target)
            + "，当前分支可以提交。"@,
        Some(BranchStatus::Pruned) => "当前值 "@ + number::signed_decimal(current)
            + " 明显偏离目标 "@ + number::signed_decimal(target) + "，剪枝并回溯到下一个思考方向。"@,
        Some(BranchStatus::DeadEnd) => "线性 tool loop 已走完，但当前值 "@
            + number::signed_decimal(current) + " 仍未命中目标 "@ + number::signed_decimal(target)
            + "。"@,
        None => "保留当前思路继续执行；当前值 "@ + number::signed_decimal(current) + "，距离目标 "@
            + number::signed_decimal(target) + " 还有 "@ + number::decimal(remaining)
            + " 个操作数可用。"@,
    }
}

/// Whether a number can be judged: the target always can; any other only where its size and the
/// reach of the target can be counted.
pub open spec fn judging_fits(target: int, current: int) -> bool {
    current == target || (reach(target) <= i64::MAX && current != i64::MIN)
}

/// Judges a number, and notes why.
pub fn inspect_execution(target: i64, current: i64, remaining_operands: usize) -> (r: (
    Option<BranchStatus>,
    String,
))
    requires
        judging_fits(target as int, current as int),
    ensures
        r.0 == judged(target as int, current as int, remaining_operands as nat),
        r.1@ == noted(target as int, current as int, remaining_operands as nat),
{
    let here = number::signed_decimal_text(current);
    let there = number::signed_decimal_text(target);
    if current == target {
        return (
            Some(BranchStatus::Success),
            text::cat3("命中目标 ", there.as_str(), "，当前分支可以提交。"),
        );
    }
    let far: i64 = if current < 0 {
        -current
    } else {
        current
    };
    let size: i64 = if target < 0 {
        -target
    } else {
        target
    };
    let limit: i64 = if size > 1 {
        size * 4
    } else {
        4
    };
    if far > limit {
        return (
            Some(BranchStatus::Pruned),
            text::cat5(
                "当前值 ",
                here.as_str(),
                " 明显偏离目标 ",
                there.as_str(),
                "，剪枝并回溯到下一个思考方向。",
            ),
        );
    }
    if remaining_operands == 0 {
        return (
            Some(BranchStatus::DeadEnd),
            text::cat5(
                "线性 tool loop 已走完，但当前值 ",
                here.as_str(),
                " 仍未命中目标 ",
                there.as_str(),
                "。",
            ),
        );
    }
    let mut note = text::cat5(
        "保留当前思路继续执行；当前值 ",
        here.as_str(),
        "，距离目标 ",
        there.as_str(),
        " 还有 ",
    );
    note.append(number::decimal_text(remaining_operands as u64).as_str());
    note.append(" 个操作数可用。");
    (None, note)
}

/// Why a direction ended as it did.
pub open spec fn reason_of(target: int, current: int, status: BranchStatus) -> Seq<char> {
    match status {
        BranchStatus::Success => "分支命中目标 "@ + number::signed_decimal(target)
            + "，提交副作用并保留当前调用链。"@,
        BranchStatus::DeadEnd => "分支执行完成但停在 "@ + number::signed_decimal(current)
            + "，未命中目标 "@ + number::signed_decimal(target) + "，回滚副作用。"@,
        BranchStatus::Pruned => "分支中途被剪枝，当前值 "@ + number::signed_decimal(current)
            + " 已明显偏离目标 "@ + number::signed_decimal(target) + "，回滚副作用。"@,
    }
}

/// Tells why a direction ended as it did.
pub fn branch_reason(target: i64, current: i64, status: BranchStatus) -> (r: String)
    ensures
        r@ == reason_of(target as int, current as int, status),
{
    let here = number::signed_decimal_text(current);
    let there = number::signed_decimal_text(target);
    match status {
        BranchStatus::Success => text::cat3(
            "分支命中目标 ",
            there.as_str(),
            "，提交副作用并保留当前调用链。",
        ),
        BranchStatus::DeadEnd => text::cat5(
            "分支执行完成但停在 ",
            here.as_str(),
            "，未命中目标 ",
            there.as_str(),
            "，回滚副作用。",
        ),
        BranchStatus::Pruned => text::cat5(
            "分支中途被剪枝，当前值 ",
            here.as_str(),
            " 已明显偏离目标 ",
            there.as_str(),
            "，回滚副作用。",
        ),
    }
}

/// The state after one tool call.
pub open spec fn stepped(s: WorkspaceView, tool: ToolKind, operand: int) -> WorkspaceView {
    let next = tool.apply(s.current, operand);
    WorkspaceView {
        current: next,
        cursor: s.cursor + 1,
        effects: s.effects.push(
            tool.name() + "("@ + number::signed_decimal(s.current) + ", "@ + number::signed_decimal(
                operand,
            ) + ") = "@ + number::signed_decimal(next),
        ),
    }
}

/// How many operands are left.
pub open spec fn left(operands: Seq<i64>, cursor: nat) -> nat {
    if cursor >= operands.len() {
        0
    } else {
        (operands.len() - cursor) as nat
    }
}

/// What is recorded of one tool call.
pub open spec fn step_record(
    operands: Seq<i64>,
    target: int,
    s: WorkspaceView,
    tool: ToolKind,
    index: nat,
) -> StepView {
    let operand = operands[s.cursor as int] as int;
    let next = tool.apply(s.current, operand);
    StepView {
        step: index + 1,
        tool: tool.name(),
        args: "{\"a\":"@ + number::signed_decimal(s.current) + ",\"b\":"@ + number::signed_decimal(
            operand,
        ) + "}"@,
        output: "{\"value\":"@ + number::signed_decimal(next) + "}"@,
        observation: noted(target, next, left(operands, s.cursor + 1)),
    }
}

/// How a run of tool calls ended.
pub struct RunView {
    pub status: BranchStatus,
    pub state: WorkspaceView,
    pub steps: Seq<StepView>,
}

/// The rest of a run: tool after tool on operand after operand, until a number ends it or one of
/// them is used up.
pub open spec fn run_from(
    operands: Seq<i64>,
    target: int,
    s: WorkspaceView,
    plan: Seq<ToolKind>,
    i: int,
    steps: Seq<StepView>,
) -> RunView
    decreases plan.len() - i,
{
    if i >= plan.len() || s.cursor >= operands.len() {
        RunView {
            status: if s.current == target {
                BranchStatus::Success
            } else {
                BranchStatus::DeadEnd
            },
            state: s,
            steps,
        }
    } else {
        let next = stepped(s, plan[i], operands[s.cursor as int] as int);
        let more = steps.push(step_record(operands, target, s, plan[i], i as nat));
        match judged(target, next.current, left(operands, next.cursor)) {
            Some(status) => RunView { status, state: next, steps: more },
            None => run_from(operands, target, next, plan, i + 1, more),
        }
    }
}

/// Whether a run stays within the numbers that can be counted with.
pub open spec fn run_fits(
    operands: Seq<i64>,
    target: int,
    s: WorkspaceView,
    plan: Seq<ToolKind>,
    i: int,
) -> bool
    decreases plan.len() - i,
{
    i >= plan.len() || s.cursor >= operands.len() || {
        let next = stepped(s, plan[i], operands[s.cursor as int] as int);
        &&& i64::MIN <= next.current <= i64::MAX
        &&& judging_fits(target, next.current)
        &&& judged(target, next.current, left(operands, next.cursor)) is None ==> run_fits(
            operands,
            target,
            next,
            plan,
            i + 1,
        )
    }
}

/// What came of a run.
#[derive(Debug)]
pub struct BranchOutcome {
    pub status: BranchStatus,
    pub reason: String,
    pub tool_calls: Vec<StepTrace>,
}

/// Runs the tools of a plan on a state, one after the other.
pub fn run_linear_tool_loop(
    problem: &SearchProblem,
    sandbox: &mut WorkspaceState,
    plan: &Vec<ToolKind>,
) -> (r: BranchOutcome)
    requires
        run_fits(problem.operands@, problem.target as int, old(sandbox)@, plan@, 0),
    ensures
        ({
            let run = run_from(
                problem.operands@,
                problem.target as int,
                old(sandbox)@,
                plan@,
                0,
                Seq::empty(),
            );
            &&& r.status == run.status
            &&& r.reason@ == reason_of(problem.target as int, run.state.current, run.status)
            &&& steps_view(r.tool_calls@) == run.steps
            &&& final(sandbox)@ == run.state
        }),
{
    let ghost operands = problem.operands@;
    let ghost target = problem.target as int;
    let ghost whole = run_from(operands, target, sandbox@, plan@, 0, Seq::empty());
    let mut tool_calls: Vec<StepTrace> = Vec::new();
    let mut i: usize = 0;
    assert(steps_view(tool_calls@) =~= Seq::empty());
    while i < plan.len() && sandbox.cursor < problem.operands.len()
        invariant
            i <= plan@.len(),
            operands == problem.operands@,
            target == problem.target as int,
            run_fits(operands, target, sandbox@, plan@, i as int),
            whole == run_from(operands, target, old(sandbox)@, plan@, 0, Seq::empty()),
            whole == run_from(
                operands,
                target,
                sandbox@,
                plan@,
                i as int,
                steps_view(tool_calls@),
            ),
        decreases plan@.len() - i,
    {
        let ghost before = sandbox@;
        let ghost steps = steps_view(tool_calls@);
        let tool = plan[i];
        let operand: i64 = problem.operands[sandbox.cursor];
        let current: i64 = sandbox.current;
        let ghost after = stepped(before, tool, operand as int);
        assert(i64::MIN <= after.current <= i64::MAX);
        let next: i64 = match tool {
            ToolKind::Add => current + operand,
            ToolKind::Mul => current * operand,
        };
        let a = number::signed_decimal_text(current);
        let b = number::signed_decimal_text(operand);
        let value = number::signed_decimal_text(next);
        let mut effect = text::cat5(tool.as_name(), "(", a.as_str(), ", ", b.as_str());
        effect.append(") = ");
        effect.append(value.as_str());
        let ghost effects = text::strings_view(sandbox.pending_effects@);
        sandbox.pending_effects.push(effect);
        assert(text::strings_view(sandbox.pending_effects@) =~= effects.push(effect@));
        sandbox.current = next;
        sandbox.cursor = sandbox.cursor + 1;
        assert(sandbox@ =~= after);
        let remaining: usize = problem.operands.len() - sandbox.cursor;
        let (status, observation) = inspect_execution(problem.target, next, remaining);
        let trace = StepTrace {
            step: i + 1,
            tool: tool.as_name().to_owned(),
            args: text::cat5("{\"a\":", a.as_str(), ",\"b\":", b.as_str(), "}"),
            output: text::cat3("{\"value\":", value.as_str(), "}"),
            observation,
        };
        tool_calls.push(trace);
        proof {
            assert(remaining == left(operands, after.cursor));
            assert(steps_view(tool_calls@) =~= steps.push(trace@));
            assert(trace@ == step_record(operands, target, before, tool, i as nat));
        }
        if let Some(ended) = status {
            return BranchOutcome {
                status: ended,
                reason: branch_reason(problem.target, sandbox.current, ended),
                tool_calls,
            };
        }
        i = i + 1;
    }
    let status = if sandbox.current == problem.target {
        BranchStatus::Success
    } else {
        BranchStatus::DeadEnd
    };
    BranchOutcome {
        status,
        reason: branch_reason(problem.target, sandbox.current, status),
        tool_calls,
    }
}

/// What is recorded of a direction that was tried.
#[derive(Debug)]
pub struct BranchAttempt {
    pub direction: String,
    pub thought: String,
    pub planned_tools: Vec<String>,
    pub status: String,
    pub decision: String,
    pub reason: String,
    pub sandbox_before: WorkspaceState,
    pub sandbox_after: WorkspaceState,
    pub tool_calls: Vec<StepTrace>,
}

/// The contents of such a record.
pub struct AttemptView {
    pub direction: Seq<char>,
    pub thought: Seq<char>,
    pub planned_tools: Seq<Seq<char>>,
    pub status: Seq<char>,
    pub decision: Seq<char>,
    pub reason: Seq<char>,
    pub before: WorkspaceView,
    pub after: WorkspaceView,
    pub steps: Seq<StepView>,
}

impl View for BranchAttempt {
    type V = AttemptView;

    open spec fn view(&self) -> AttemptView {
        AttemptView {
            direction: self.direction@,
            thought: self.thought@,
            planned_tools: text::strings_view(self.planned_tools@),
            status: self.status@,
            decision: self.decision@,
            reason: self.reason@,
            before: self.sandbox_before@,
            after: self.sandbox_after@,
            steps: steps_view(self.tool_calls@),
        }
    }
}

/// The contents of a list of such records.
pub open spec fn attempts_view(ts: Seq<BranchAttempt>) -> Seq<AttemptView> {
    ts.map_values(|t: BranchAttempt| t@)
}

/// The tools of a direction from a state on.
pub open spec fn plan_of(
    operands: Seq<i64>,
    d: ThoughtDirection,
    s: WorkspaceView,
) -> Seq<ToolKind> {
    planned(d.planner, left(operands, s.cursor))
}

/// What comes of a direction from a state on.
pub open spec fn trial(
    operands: Seq<i64>,
    target: int,
    d: ThoughtDirection,
    s: WorkspaceView,
) -> RunView {
    run_from(operands, target, s, plan_of(operands, d, s), 0, Seq::empty())
}

/// What is recorded of a direction.
pub open spec fn attempt_of(
    operands: Seq<i64>,
    target: int,
    d: ThoughtDirection,
    s: WorkspaceView,
) -> AttemptView {
    let run = trial(operands, target, d, s);
    AttemptView {
        direction: d.name@,
        thought: d.thought@,
        planned_tools: plan_of(operands, d, s).map_values(|t: ToolKind| t.name()),
        status: run.status.name(),
        decision: run.status.verdict(),
        reason: reason_of(target, run.state.current, run.status),
        before: s,
        after: run.state,
        steps: run.steps,
    }
}

/// The place of the first direction from `index` on that hits the target, or the number of
/// directions.
pub open spec fn first_hit(
    operands: Seq<i64>,
    target: int,
    directions: Seq<ThoughtDirection>,
    index: int,
    s: WorkspaceView,
) -> int
    decreases directions.len() - index,
{
    if index >= directions.len() {
        directions.len() as int
    } else if trial(operands, target, directions[index], s).status == BranchStatus::Success {
        index
    } else {
        first_hit(operands, target, directions, index + 1, s)
    }
}

/// The records of the directions from `index` on, up to the first that hits the target.
pub open spec fn attempts_from(
    operands: Seq<i64>,
    target: int,
    directions: Seq<ThoughtDirection>,
    index: int,
    s: WorkspaceView,
) -> Seq<AttemptView>
    decreases directions.len() - index,
{
    if index >= directions.len() {
        Seq::empty()
    } else {
        let d = directions[index];
        let first = seq![attempt_of(operands, target, d, s)];
        if trial(operands, target, d, s).status == BranchStatus::Success {
            first
        } else {
            first + attempts_from(operands, target, directions, index + 1, s)
        }
    }
}

/// Whether all directions from `index` on stay within the numbers that can be counted with, up to
/// the first that hits the target.
pub open spec fn search_fits(
    operands: Seq<i64>,
    target: int,
    directions: Seq<ThoughtDirection>,
    index: int,
    s: WorkspaceView,
) -> bool
    decreases directions.len() - index,
{
    index >= directions.len() || {
        let d = directions[index];
        &&& run_fits(operands, target, s, plan_of(operands, d, s), 0)
        &&& trial(operands, target, d, s).status != BranchStatus::Success ==> search_fits(
            operands,
            target,
            directions,
            index + 1,
            s,
        )
    }
}

fn tool_names(plan: &Vec<ToolKind>) -> (r: Vec<String>)
    ensures
        text::strings_view(r@) == plan@.map_values(|t: ToolKind| t.name()),
{
    let mut out: Vec<String> = Vec::new();
    let mut i: usize = 0;
    while i < plan.len()
        invariant
            i <= plan@.len(),
            out@.len() == i,
            forall|j: int| 0 <= j < i ==> (#[trigger] out@[j])@ == plan@[j].name(),
        decreases plan@.len() - i,
    {
        out.push(plan[i].as_name().to_owned());
        i = i + 1;
    }
    assert(text::strings_view(out@) =~= plan@.map_values(|t: ToolKind| t.name()));
    out
}

/// Tries the directions from `index` on, one after the other, until one hits the target. Its state
/// is committed; the state of any other is dropped.
pub fn backtrack_search(
    problem: &SearchProblem,
    directions: &Vec<ThoughtDirection>,
    index: usize,
    committed_state: &mut WorkspaceState,
    attempts: &mut Vec<BranchAttempt>,
) -> (found: bool)
    requires
        search_fits(
            problem.operands@,
            problem.target as int,
            directions@,
            index as int,
            old(committed_state)@,
        ),
    ensures
        ({
            let o = problem.operands@;
            let t = problem.target as int;
            let s = old(committed_state)@;
            let k = first_hit(o, t, directions@, index as int, s);
            &&& found == (k < directions@.len())
            &&& final(committed_state)@ == if found {
                trial(o, t, directions@[k], s).state
            } else {
                s
            }
            &&& attempts_view(final(attempts)@) == attempts_view(old(attempts)@) + attempts_from(
                o,
                t,
                directions@,
                index as int,
                s,
            )
        }),
    decreases directions@.len() - index,
{
    let ghost earlier = attempts_view(attempts@);
    if index >= directions.len() {
        assert(earlier + Seq::<AttemptView>::empty() =~= earlier);
        return false;
    }
    let ghost o = problem.operands@;
    let ghost t = problem.target as int;
    let ghost s = committed_state@;
    let direction = directions[index];
    let mut sandbox = committed_state.clone();
    let sandbox_before = committed_state.clone();
    let remaining: usize = if sandbox.cursor >= problem.operands.len() {
        0
    } else {
        problem.operands.len() - sandbox.cursor
    };
    let plan = direction.planner.plan(remaining);
    assert(plan@ == plan_of(o, direction, s));
    let outcome = run_linear_tool_loop(problem, &mut sandbox, &plan);
    let success = outcome.status == BranchStatus::Success;
    let attempt = BranchAttempt {
        direction: direction.name.to_owned(),
        thought: direction.thought.to_owned(),
        planned_tools: tool_names(&plan),
        status: outcome.status.as_str().to_owned(),
        decision: outcome.status.decision().to_owned(),
        reason: outcome.reason,
        sandbox_before,
        sandbox_after: sandbox.clone(),
        tool_calls: outcome.tool_calls,
    };
    attempts.push(attempt);
    let ghost first = seq![attempt_of(o, t, direction, s)];
    proof {
        assert(attempt@ == attempt_of(o, t, direction, s));
        assert(attempts_view(attempts@) =~= earlier + first);
    }
    if success {
        *committed_state = sandbox;
        return true;
    }
    let found = backtrack_search(problem, directions, index + 1, committed_state, attempts);
    proof {
        let rest = attempts_from(o, t, directions@, index + 1, s);
        assert((earlier + first) + rest =~= earlier + (first + rest));
    }
    found
}

/// What a search gives: the directions, the problem, what was tried, whether the target was hit, and the state
/// that is left.
#[derive(Debug)]
pub struct SearchReport {
    pub loaded_directions: Vec<String>,
    pub problem: SearchProblem,
    pub attempts: Vec<BranchAttempt>,
    pub status: String,
    pub committed_state: WorkspaceState,
}

/// Solves a problem with the given directions.
pub fn search(problem: &SearchProblem, registry: &ThoughtDirectionRegistry) -> (r: SearchReport)
    requires
        search_fits(
            problem.operands@,
            problem.target as int,
            registry.items@,
            0,
            WorkspaceView { current: problem.start as int, cursor: 0, effects: Seq::empty() },
        ),
    ensures
        ({
            let o = problem.operands@;
            let t = problem.target as int;
            let s = WorkspaceView {
                current: problem.start as int,
                cursor: 0,
                effects: Seq::empty(),
            };
            let k = first_hit(o, t, registry.items@, 0, s);
            &&& text::strings_view(r.loaded_directions@) == registry.items@.map_values(
                |d: ThoughtDirection| d.name@,
            )
            &&& r.problem.start == problem.start
            &&& r.problem.operands@ == o
            &&& r.problem.target == problem.target
            &&& attempts_view(r.attempts@) == attempts_from(o, t, registry.items@, 0, s)
            &&& r.status@ == if k < registry.items@.len() {
                "found_plan"@
            } else {
                "not_found"@
            }
            &&& r.committed_state@ == if k < registry.items@.len() {
                trial(o, t, registry.items@[k], s).state
            } else {
                s
            }
        }),
{
    let mut committed_state = WorkspaceState::new(problem.start);
    let mut attempts: Vec<BranchAttempt> = Vec::new();
    assert(attempts_view(attempts@) =~= Seq::empty());
    let found = backtrack_search(
        problem,
        &registry.items,
        0,
        &mut committed_state,
        &mut attempts,
    );
    let r = SearchReport {
        loaded_directions: registry.names(),
        problem: problem.clone(),
        attempts,
        status: if found {
            "found_plan".to_owned()
        } else {
            "not_found".to_owned()
        },
        committed_state,
    };
    assert(attempts_view(r.attempts@) =~= attempts_from(
        problem.operands@,
        problem.target as int,
        registry.items@,
        0,
        WorkspaceView { current: problem.start as int, cursor: 0, effects: Seq::empty() },
    ));
    r
}

/// A run that ends in success stands at the target.
proof fn lemma_success_is_the_target(
    operands: Seq<i64>,
    target: int,
    s: WorkspaceView,
    plan: Seq<ToolKind>,
    i: int,
    steps: Seq<StepView>,
)
    ensures
        run_from(operands, target, s, plan, i, steps).status == BranchStatus::Success
            <==> run_from(operands, target, s, plan, i, steps).state.current == target,
    decreases plan.len() - i,
{
    if i < plan.len() && s.cursor < operands.len() {
        let next = stepped(s, plan[i], operands[s.cursor as int] as int);
        let more = steps.push(step_record(operands, target, s, plan[i], i as nat));
        lemma_success_is_the_target(operands, target, next, plan, i + 1, more);
    }
}

/// The search is sound and complete: it finds a direction exactly where one from `index` on ends at
/// the target, and what is then committed stands at the target.
pub proof fn law_search_finds_what_there_is(
    operands: Seq<i64>,
    target: int,
    directions: Seq<ThoughtDirection>,
    index: int,
    s: WorkspaceView,
)
    requires
        0 <= index <= directions.len(),
    ensures
        ({
            let k = first_hit(operands, target, directions, index, s);
            &&& index <= k <= directions.len()
            &&& k < directions.len() ==> trial(operands, target, directions[k], s).state.current
                == target
            &&& k == directions.len() <==> forall|d: int|
                index <= d < directions.len() ==> trial(
                    operands,
                    target,
                    #[trigger] directions[d],
                    s,
                ).state.current != target
        }),
    decreases directions.len() - index,
{
    if index < directions.len() {
        let plan = plan_of(operands, directions[index], s);
        lemma_success_is_the_target(operands, target, s, plan, 0, Seq::empty());
        law_search_finds_what_there_is(operands, target, directions, index + 1, s);
    }
}

/// Each direction that was tried began from the committed state, so no effect of a direction that
/// was rolled back is left; all but a last successful one were rolled back.
pub proof fn law_rolled_back_effects_are_gone(
    operands: Seq<i64>,
    target: int,
    directions: Seq<ThoughtDirection>,
    index: int,
    s: WorkspaceView,
)
    requires
        0 <= index <= directions.len(),
    ensures
        ({
            let k = first_hit(operands, target, directions, index, s);
            let attempts = attempts_from(operands, target, directions, index, s);
            &&& attempts.len() == if k < directions.len() {
                k + 1 - index
            } else {
                k - index
            }
            &&& forall|i: int|
                0 <= i < attempts.len() ==> (#[trigger] attempts[i]).before == s
                    && attempts[i].decision == if index + i == k {
                    "commit"@
                } else {
                    "rollback"@
                }
        }),
    decreases directions.len() - index,
{
    law_search_finds_what_there_is(operands, target, directions, index, s);
    if index < directions.len() {
        let d = directions[index];
        let attempts = attempts_from(operands, target, directions, index, s);
        if trial(operands, target, d, s).status != BranchStatus::Success {
            law_rolled_back_effects_are_gone(operands, target, directions, index + 1, s);
            law_search_finds_what_there_is(operands, target, directions, index + 1, s);
            let rest = attempts_from(operands, target, directions, index + 1, s);
            let k = first_hit(operands, target, directions, index, s);
            assert forall|i: int| 0 <= i < attempts.len() implies (#[trigger] attempts[i]).before == s
                && attempts[i].decision == if index + i == k {
                "commit"@
            } else {
                "rollback"@
            } by {
                if i > 0 {
                    assert(attempts[i] == rest[i - 1]);
                }
            }
        }
    }
}

} // verus!
