use mimic_shrimp::backtracking::{
    inspect_execution, search, BranchStatus, Planner, SearchProblem, ThoughtDirectionRegistry, ToolKind,
};

#[test]
fn third_direction_hits_the_target() {
    let problem = SearchProblem { start: 2, operands: vec![3, 4, 5], target: 25 };
    let report = search(&problem, &ThoughtDirectionRegistry::default());
    assert_eq!(report.loaded_directions, vec!["sum-first", "multiply-first", "bridge-plan"]);
    assert_eq!(report.problem.start, 2);
    assert_eq!(report.problem.operands, vec![3, 4, 5]);
    assert_eq!(report.problem.target, 25);
    assert_eq!(report.status, "found_plan");
    let statuses: Vec<&str> = report.attempts.iter().map(|a| a.status.as_str()).collect();
    assert_eq!(statuses, vec!["dead_end", "pruned", "success"]);
    let decisions: Vec<&str> = report.attempts.iter().map(|a| a.decision.as_str()).collect();
    assert_eq!(decisions, vec!["rollback", "rollback", "commit"]);
    assert_eq!(report.committed_state.current, 25);
    assert_eq!(report.committed_state.cursor, 3);
    assert_eq!(
        report.committed_state.pending_effects,
        vec!["math_add(2, 3) = 5", "math_mul(5, 4) = 20", "math_add(20, 5) = 25"]
    );
    let pruned = &report.attempts[1];
    assert_eq!(pruned.sandbox_before.current, 2);
    assert_eq!(pruned.sandbox_after.current, 120);
    assert_eq!(pruned.reason, "分支中途被剪枝，当前值 120 已明显偏离目标 25，回滚副作用。");
    assert_eq!(pruned.tool_calls[0].args, "{\"a\":2,\"b\":3}");
    assert_eq!(pruned.tool_calls[0].output, "{\"value\":6}");
    assert_eq!(
        pruned.tool_calls[0].observation,
        "保留当前思路继续执行；当前值 6，距离目标 25 还有 2 个操作数可用。"
    );
    assert_eq!(pruned.planned_tools, vec!["math_mul", "math_mul", "math_mul"]);
}

#[test]
fn nothing_is_committed_where_nothing_hits() {
    let problem = SearchProblem { start: 1, operands: vec![1], target: -3 };
    let report = search(&problem, &ThoughtDirectionRegistry::default());
    assert_eq!(report.status, "not_found");
    assert_eq!(report.attempts.len(), 3);
    assert_eq!(report.committed_state.current, 1);
    assert!(report.committed_state.pending_effects.is_empty());
    assert_eq!(
        report.attempts[0].tool_calls[0].observation,
        "线性 tool loop 已走完，但当前值 2 仍未命中目标 -3。"
    );
}

#[test]
fn search_without_operands_looks_at_the_start() {
    let problem = SearchProblem { start: 7, operands: vec![], target: 7 };
    let report = search(&problem, &ThoughtDirectionRegistry::default());
    assert_eq!(report.attempts.len(), 1);
    assert!(report.attempts[0].tool_calls.is_empty());
    assert_eq!(report.attempts[0].reason, "分支命中目标 7，提交副作用并保留当前调用链。");
}

#[test]
fn bridge_plan_alternates() {
    let (add, mul) = (ToolKind::Add, ToolKind::Mul);
    assert_eq!(Planner::AddMulAdd.plan(5), vec![add, mul, add, add, mul]);
    assert_eq!(Planner::MulAll.plan(2), vec![mul, mul]);
}

#[test]
fn a_target_out_of_reach_can_be_hit() {
    let problem = SearchProblem { start: i64::MAX - 1, operands: vec![1], target: i64::MAX };
    let report = search(&problem, &ThoughtDirectionRegistry::default());
    assert_eq!(report.status, "found_plan");
    assert_eq!(report.attempts.len(), 1);
    assert_eq!(report.committed_state.current, i64::MAX);
    let (status, note) = inspect_execution(i64::MIN, i64::MIN, 0);
    assert_eq!(status, Some(BranchStatus::Success));
    assert_eq!(note, "命中目标 -9223372036854775808，当前分支可以提交。");
}
