//! What holds of the tools on offer.

use vstd::prelude::*;
use vstd::string::*;

use crate::config::tools::ExecCommandToolConfig;
use crate::encoding;
use crate::engine::ToolCallEngine;
use crate::laws::turn::is_text;
use crate::text;
use crate::tools;
use crate::tools::{
    BuiltinSchemas, BuiltinTool, RequestToolContext, SchemaPair, Tool, ToolDescriptor,
    ToolExecutionRequest, ToolExecutionResult, ToolRegistry, ToolSchema,
};

verus! {

/// Tools are registered, all of them and as they are, exactly where no two have one name; else the
/// first name that stands there a second time is told.
pub proof fn law_names_are_registered_once(
    all: Vec<Tool>,
    r: Result<ToolRegistry, String>,
    i: int,
    k: int,
)
    requires
        call_ensures(ToolRegistry::new, (all,), r),
    ensures
        (forall|a: int, b: int|
            0 <= a < b < all@.len() ==> (#[trigger] all@[a]).name@ != (#[trigger] all@[b]).name@)
            ==> (r matches Ok(registry) && registry@ == all@),
        0 <= i < k < all@.len() && all@[i].name@ == all@[k].name@ && (forall|a: int, b: int|
            0 <= a < b < k ==> (#[trigger] all@[a]).name@ != (#[trigger] all@[b]).name@) ==> (
        r matches Err(m) && m@ == "duplicate tool registration: "@ + all@[k].name@),
{
    if forall|a: int, b: int|
        0 <= a < b < all@.len() ==> (#[trigger] all@[a]).name@ != (#[trigger] all@[b]).name@ {
        assert(tools::names_distinct(all@));
    }
    if 0 <= i < k < all@.len() && all@[i].name@ == all@[k].name@ && (forall|a: int, b: int|
        0 <= a < b < k ==> (#[trigger] all@[a]).name@ != (#[trigger] all@[b]).name@) {
        assert(!tools::names_distinct(all@));
        assert(r is Err);
        let q = choose|q: int|
            #[trigger] tools::first_repeat(all@, q) && r->Err_0@ == "duplicate tool registration: "@
                + all@[q].name@;
        let j = choose|j: int| 0 <= j < q && all@[j].name@ == all@[q].name@;
        if q < k {
            assert(all@[j].name@ != all@[q].name@);
        }
        if k < q {
            let head = all@.take(q);
            assert(head[i] == all@[i] && head[k] == all@[k]);
        }
    }
}

/// A tool is on offer exactly where one of that name was registered.
pub proof fn law_offers_what_is_registered(registry: &ToolRegistry, name: &str, r: bool)
    requires
        call_ensures(ToolRegistry::has, (registry, name), r),
    ensures
        r <==> exists|i: int| 0 <= i < registry@.len() && (#[trigger] registry@[i]).name@ == name@,
{
}

/// Whether one text comes before another in the order of a dictionary.
pub open spec fn comes_first(a: Seq<char>, b: Seq<char>) -> bool {
    exists|k: int| #[trigger] differ_first_at(a, b, k)
}

/// Whether two texts agree up to a place, and there the first ends or has the smaller character.
pub open spec fn differ_first_at(a: Seq<char>, b: Seq<char>, k: int) -> bool {
    &&& 0 <= k <= a.len()
    &&& k < b.len()
    &&& forall|i: int| 0 <= i < k ==> a[i] == b[i]
    &&& k == a.len() || a[k] < b[k]
}

proof fn lemma_order(a: Seq<char>, b: Seq<char>)
    ensures
        tools::text_before(a, b) == comes_first(a, b),
    decreases a.len(),
{
    if b.len() == 0 {
    } else if a.len() == 0 {
        assert(differ_first_at(a, b, 0));
    } else if a[0] != b[0] {
        if a[0] < b[0] {
            assert(differ_first_at(a, b, 0));
        } else if comes_first(a, b) {
            let k = choose|k: int| #[trigger] differ_first_at(a, b, k);
            assert(k == 0);
        }
    } else {
        let x = a.skip(1);
        let y = b.skip(1);
        lemma_order(x, y);
        if comes_first(x, y) {
            let k = choose|k: int| #[trigger] differ_first_at(x, y, k);
            assert forall|i: int| 0 <= i < k + 1 implies a[i] == b[i] by {
                if i > 0 {
                    assert(x[i - 1] == y[i - 1]);
                }
            }
            assert(differ_first_at(a, b, k + 1));
        }
        if comes_first(a, b) {
            let k = choose|k: int| #[trigger] differ_first_at(a, b, k);
            assert(k > 0);
            assert forall|i: int| 0 <= i < k - 1 implies x[i] == y[i] by {
                assert(a[i + 1] == b[i + 1]);
            }
            assert(differ_first_at(x, y, k - 1));
        }
    }
}

/// Whether what is told of a tool is what it is; one without a schema takes an object without fields.
pub open spec fn tells(
    name: Seq<char>,
    description: Seq<char>,
    parameters: Seq<char>,
    tool: Tool,
) -> bool {
    &&& name == tool.name@
    &&& description == tool.description@
    &&& tool.parameters_schema matches Some(s) ==> parameters == s@
    &&& tool.parameters_schema is None ==> parameters
        == "{\"properties\":{},\"type\":\"object\"}"@
}

/// Callers are told of every tool once, by name in the order of a dictionary.
pub proof fn law_tools_are_told_by_name(registry: &ToolRegistry, r: Vec<ToolDescriptor>)
    requires
        call_ensures(ToolRegistry::descriptors, (registry,), r),
    ensures
        exists|order: Seq<Tool>|
            #![trigger order.to_multiset()]
            order.to_multiset() == registry@.to_multiset() && r@.len() == order.len() && (forall|
                i: int,
            |
                0 <= i < r@.len() ==> tells(
                    (#[trigger] r@[i]).name@,
                    r@[i].description@,
                    r@[i].parameters_schema@,
                    order[i],
                ) && text::opt_view(r@[i].response_schema) == text::opt_view(
                    order[i].response_schema,
                ) && r@[i].long_running == order[i].long_running),
        forall|i: int, j: int|
            0 <= i < j < r@.len() ==> !comes_first(
                (#[trigger] r@[j]).name@,
                (#[trigger] r@[i]).name@,
            ),
{
    let order = choose|order: Seq<Tool>|
        #![trigger tools::describe_all(r@, order)]
        tools::describe_all(r@, order) && tools::sorted_by_name(order) && order.to_multiset()
            == registry@.to_multiset();
    assert forall|i: int| 0 <= i < r@.len() implies tells(
        (#[trigger] r@[i]).name@,
        r@[i].description@,
        r@[i].parameters_schema@,
        order[i],
    ) && text::opt_view(r@[i].response_schema) == text::opt_view(order[i].response_schema)
        && r@[i].long_running == order[i].long_running by {
        assert(tools::describes(r@[i], order[i]));
    }
    assert(order.to_multiset() == registry@.to_multiset());
    assert forall|i: int, j: int| 0 <= i < j < r@.len() implies !comes_first(
        (#[trigger] r@[j]).name@,
        (#[trigger] r@[i]).name@,
    ) by {
        assert(tools::describes(r@[i], order[i]));
        assert(tools::describes(r@[j], order[j]));
        lemma_order(order[j].name@, order[i].name@);
        assert(!tools::text_before(order[j].name@, order[i].name@));
    }
}

/// The engine tells of its own tools.
pub proof fn law_engine_tells_its_tools(
    engine: &ToolCallEngine,
    a: Vec<ToolDescriptor>,
)
    requires
        call_ensures(ToolCallEngine::tools, (engine,), a),
    ensures
        exists|order: Seq<Tool>|
            #![trigger tools::describe_all(a@, order)]
            tools::describe_all(a@, order) && order.to_multiset() == engine.registry@.to_multiset(),
{
}

/// The model is told of every tool: its name, what it does and what it takes.
pub proof fn law_model_is_told_of_the_tools(registry: &ToolRegistry, r: Vec<ToolSchema>)
    requires
        call_ensures(ToolRegistry::schemas, (registry,), r),
    ensures
        r@.len() == registry@.len(),
        forall|i: int|
            0 <= i < r@.len() ==> tells(
                (#[trigger] r@[i]).name@,
                r@[i].description@,
                r@[i].parameters@,
                registry@[i],
            ),
{
    assert forall|i: int| 0 <= i < r@.len() implies tells(
        (#[trigger] r@[i]).name@,
        r@[i].description@,
        r@[i].parameters@,
        registry@[i],
    ) by {
        assert(tools::presents(r@[i], registry@[i]));
    }
}

/// A tool is run for the one who asks, in the session and under the identifiers of the request; a
/// tool that is not on offer is not run.
pub proof fn law_tool_runs_for_the_request(
    registry: &ToolRegistry,
    request: &ToolExecutionRequest,
    r: Result<RequestToolContext, String>,
    name: &str,
    offered: bool,
)
    requires
        call_ensures(ToolRegistry::prepare, (registry, request), r),
        name@ == request.tool_name@,
        call_ensures(ToolRegistry::has, (registry, name), offered),
    ensures
        r is Ok <==> offered,
        r matches Err(m) ==> m@ == "tool not found: "@ + request.tool_name@,
        r matches Ok(c) ==> {
            &&& c.invocation_id@ == request.invocation_id@
            &&& c.agent_name@ == "tool-call-engine"@
            &&& c.user_id@ == request.user_id@
            &&& c.app_name@ == request.app_name@
            &&& c.session_id@ == request.session_id@
            &&& c.branch@.len() == 0
            &&& c.user_content@ == request.user_content@
            &&& c.function_call_id@ == request.function_call_id@
        },
{
}

/// What a tool gave is the result of the very call that was asked for.
pub proof fn law_result_is_of_the_call(
    request: ToolExecutionRequest,
    output: String,
    r: ToolExecutionResult,
)
    requires
        call_ensures(ToolExecutionRequest::completed, (request, output), r),
    ensures
        r.output@ == output@,
        r.function_call_id@ == request.function_call_id@,
        r.tool_name@ == request.tool_name@,
        r.args@ == request.args@,
{
}

/// A direct call asks for the tool and the arguments that the caller names, for that caller, under
/// two identifiers of its own.
pub proof fn law_direct_call_is_the_callers(
    engine: &ToolCallEngine,
    user_id: String,
    session_id: String,
    tool_name: String,
    args: String,
    invocation: &[u8; 16],
    call: &[u8; 16],
    r: ToolExecutionRequest,
)
    requires
        call_ensures(
            ToolCallEngine::invoke_tool_with,
            (engine, user_id, session_id, tool_name, args, invocation, call),
            r,
        ),
    ensures
        r.app_name@ == engine.app_name@,
        r.user_id@ == user_id@,
        r.session_id@ == session_id@,
        r.tool_name@ == tool_name@,
        r.args@ == args@,
        r.invocation_id@ == encoding::uuid_text(invocation@),
        r.function_call_id@ == encoding::uuid_text(call@),
        is_text(r.user_content, "user"@, "direct tool invocation"@),
{
    assert(r.user_content@.parts.len() == r.user_content.parts@.len());
    assert(r.user_content@.parts[0] == r.user_content.parts@[0]@);
}

/// Whether a tool is what a name, a description and a pair of schemas say.
pub open spec fn is_tool(
    tool: Tool,
    name: Seq<char>,
    description: Seq<char>,
    schemas: SchemaPair,
) -> bool {
    &&& tool.name@ == name
    &&& tool.description@ == description
    &&& text::opt_view(tool.parameters_schema) == text::opt_view(schemas.parameters)
    &&& text::opt_view(tool.response_schema) == text::opt_view(schemas.response)
    &&& !tool.long_running
}

/// The built-in tools are those of the sessions, of numbers and time, of the lesson, and the shell
/// where it is enabled; each takes and gives what its own schemas say.
pub proof fn law_builtin_tools(
    schemas: BuiltinSchemas,
    config: &ExecCommandToolConfig,
    r: Result<ToolRegistry, String>,
)
    requires
        call_ensures(tools::build_builtin_registry, (schemas, config), r),
    ensures
        r matches Ok(registry) && {
            let all = registry@;
            &&& all.len() == if config.enabled {
                9int
            } else {
                8
            }
            &&& is_tool(
                all[0],
                "sessions_list"@,
                "List in-memory sessions and their latest message preview."@,
                schemas.sessions_list,
            )
            &&& is_tool(
                all[1],
                "sessions_history"@,
                "Read recent message history from one session."@,
                schemas.sessions_history,
            )
            &&& is_tool(all[2], "math_add"@, "Add two numbers."@, schemas.math_add)
            &&& is_tool(
                all[3],
                "time_now"@,
                "Return the current server time in Unix milliseconds and a simple UTC string."@,
                schemas.time_now,
            )
            &&& all[4].name@ == "english_learning_start_today"@
            &&& all[4].parameters_schema == schemas.english_learning_start_today.parameters
            &&& all[5].name@ == "english_learning_explain_focus_sentence"@
            &&& all[5].parameters_schema
                == schemas.english_learning_explain_focus_sentence.parameters
            &&& all[6].name@ == "english_learning_next_question"@
            &&& all[6].parameters_schema == schemas.english_learning_next_question.parameters
            &&& all[7].name@ == "english_learning_shadowing_feedback"@
            &&& all[7].parameters_schema == schemas.english_learning_shadowing_feedback.parameters
            &&& config.enabled ==> is_tool(
                all[8],
                "exec_command"@,
                "Execute a shell command on the current server and return its exit code plus captured stdout/stderr."@,
                schemas.exec_command,
            )
        },
{
}

/// A built-in tool goes by its own name, and no other by the same.
pub proof fn law_builtin_tools_have_names(
    tool: BuiltinTool,
    name: &str,
    other: BuiltinTool,
    other_name: &str,
)
    requires
        call_ensures(BuiltinTool::name, (tool,), name),
        call_ensures(BuiltinTool::name, (other,), other_name),
    ensures
        name@ == other_name@ ==> tool == other,
        tool is SessionsList ==> name@ == "sessions_list"@,
        tool is SessionsHistory ==> name@ == "sessions_history"@,
        tool is MathAdd ==> name@ == "math_add"@,
        tool is TimeNow ==> name@ == "time_now"@,
        tool is StartToday ==> name@ == "english_learning_start_today"@,
        tool is ExplainFocusSentence ==> name@ == "english_learning_explain_focus_sentence"@,
        tool is NextQuestion ==> name@ == "english_learning_next_question"@,
        tool is ShadowingFeedback ==> name@ == "english_learning_shadowing_feedback"@,
        tool is ExecCommand ==> name@ == "exec_command"@,
{
    reveal_strlit("sessions_list");
    reveal_strlit("sessions_history");
    reveal_strlit("math_add");
    reveal_strlit("time_now");
    reveal_strlit("english_learning_start_today");
    reveal_strlit("english_learning_explain_focus_sentence");
    reveal_strlit("english_learning_next_question");
    reveal_strlit("english_learning_shadowing_feedback");
    reveal_strlit("exec_command");
    if name@ == other_name@ {
        assert(name@.len() == other_name@.len());
        assert(name@[0] == other_name@[0]);
    }
}

} // verus!
