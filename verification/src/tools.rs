//! The tools that the engine can call: their registry, the built-in ones and the shell tool's rules.

use vstd::prelude::*;
use vstd::string::*;

use crate::config::tools::ExecCommandToolConfig;
use crate::engine::content::Content;
use crate::number;
use crate::outside;
use crate::text;

verus! {

/// What is known of a tool. Schemas stand as JSON text.
#[derive(Debug)]
pub struct Tool {
    pub name: String,
    pub description: String,
    pub parameters_schema: Option<String>,
    pub response_schema: Option<String>,
    pub long_running: bool,
}

impl Clone for Tool {
    fn clone(&self) -> (r: Self)
        ensures
            r == *self,
    {
        Tool {
            name: self.name.clone(),
            description: self.description.clone(),
            parameters_schema: self.parameters_schema.clone(),
            response_schema: self.response_schema.clone(),
            long_running: self.long_running,
        }
    }
}

/// What callers are told of a tool.
#[derive(Debug)]
pub struct ToolDescriptor {
    pub name: String,
    pub description: String,
    pub parameters_schema: String,
    pub response_schema: Option<String>,
    pub long_running: bool,
}

/// What the model is told of a tool.
#[derive(Debug)]
pub struct ToolSchema {
    pub name: String,
    pub description: String,
    pub parameters: String,
}

/// The schema of a tool that declares no parameters.
pub open spec fn no_parameters() -> Seq<char> {
    "{\"properties\":{},\"type\":\"object\"}"@
}

/// The parameter schema that is shown for a tool.
pub open spec fn shown_parameters(tool: Tool) -> Seq<char> {
    match tool.parameters_schema {
        Some(schema) => schema@,
        None => no_parameters(),
    }
}

/// Whether a descriptor tells of a tool.
pub open spec fn describes(d: ToolDescriptor, tool: Tool) -> bool {
    &&& d.name@ == tool.name@
    &&& d.description@ == tool.description@
    &&& d.parameters_schema@ == shown_parameters(tool)
    &&& text::opt_view(d.response_schema) == text::opt_view(tool.response_schema)
    &&& d.long_running == tool.long_running
}

/// Whether a schema tells of a tool.
pub open spec fn presents(s: ToolSchema, tool: Tool) -> bool {
    &&& s.name@ == tool.name@
    &&& s.description@ == tool.description@
    &&& s.parameters@ == shown_parameters(tool)
}

/// Whether one text comes before another: by the first character in which they differ, a text
/// before its own extensions.
pub open spec fn text_before(a: Seq<char>, b: Seq<char>) -> bool
    decreases a.len(),
{
    if b.len() == 0 {
        false
    } else if a.len() == 0 {
        true
    } else if a[0] != b[0] {
        a[0] < b[0]
    } else {
        text_before(a.skip(1), b.skip(1))
    }
}

proof fn lemma_before_common(a: Seq<char>, b: Seq<char>, k: int)
    requires
        0 <= k <= a.len(),
        k <= b.len(),
        forall|i: int| 0 <= i < k ==> a[i] == b[i],
    ensures
        text_before(a, b) == text_before(a.skip(k), b.skip(k)),
    decreases k,
{
    if k > 0 {
        let a1 = a.skip(1);
        let b1 = b.skip(1);
        assert forall|i: int| 0 <= i < k - 1 implies a1[i] == b1[i] by {
            assert(a1[i] == a[i + 1]);
            assert(b1[i] == b[i + 1]);
        }
        lemma_before_common(a1, b1, k - 1);
        assert(a1.skip(k - 1) =~= a.skip(k));
        assert(b1.skip(k - 1) =~= b.skip(k));
    } else {
        assert(a.skip(0) =~= a);
        assert(b.skip(0) =~= b);
    }
}

fn comes_before(a: &str, b: &str) -> (r: bool)
    ensures
        r == text_before(a@, b@),
{
    let x = text::chars_of(a);
    let y = text::chars_of(b);
    let mut k: usize = 0;
    while k < x.len() && k < y.len() && x[k] == y[k]
        invariant
            k <= x.len(),
            k <= y.len(),
            forall|i: int| 0 <= i < k ==> x@[i] == y@[i],
        decreases x.len() - k,
    {
        k = k + 1;
    }
    proof {
        lemma_before_common(x@, y@, k as int);
    }
    if k >= y.len() {
        false
    } else if k >= x.len() {
        true
    } else {
        x[k] < y[k]
    }
}

proof fn lemma_before_trichotomy(a: Seq<char>, b: Seq<char>)
    ensures
        text_before(a, b) || text_before(b, a) || a == b,
        !(text_before(a, b) && text_before(b, a)),
    decreases a.len(),
{
    if a.len() > 0 && b.len() > 0 {
        lemma_before_trichotomy(a.skip(1), b.skip(1));
        if a.skip(1) == b.skip(1) && a[0] == b[0] {
            assert(a =~= seq![a[0]] + a.skip(1));
            assert(b =~= seq![b[0]] + b.skip(1));
        }
    } else if a.len() == 0 && b.len() == 0 {
        assert(a =~= b);
    }
}

proof fn lemma_before_transitive(a: Seq<char>, b: Seq<char>, c: Seq<char>)
    requires
        text_before(a, b),
        text_before(b, c),
    ensures
        text_before(a, c),
    decreases a.len(),
{
    if a.len() > 0 && a[0] == b[0] && b[0] == c[0] {
        lemma_before_transitive(a.skip(1), b.skip(1), c.skip(1));
    }
}

/// Whether tools stand by name.
pub open spec fn sorted_by_name(tools: Seq<Tool>) -> bool {
    forall|i: int, j: int|
        0 <= i < j < tools.len() ==> !text_before(
            (#[trigger] tools[j]).name@,
            (#[trigger] tools[i]).name@,
        )
}

/// Whether descriptors tell of tools, one for one.
pub open spec fn describe_all(ds: Seq<ToolDescriptor>, tools: Seq<Tool>) -> bool {
    &&& ds.len() == tools.len()
    &&& forall|i: int| 0 <= i < ds.len() ==> describes(#[trigger] ds[i], tools[i])
}

fn describe(tool: &Tool) -> (d: ToolDescriptor)
    ensures
        describes(d, *tool),
{
    ToolDescriptor {
        name: tool.name.clone(),
        description: tool.description.clone(),
        parameters_schema: match &tool.parameters_schema {
            Some(schema) => schema.clone(),
            None => "{\"properties\":{},\"type\":\"object\"}".to_owned(),
        },
        response_schema: text::copy_opt(&tool.response_schema),
        long_running: tool.long_running,
    }
}

fn place_for(ds: &Vec<ToolDescriptor>, name: &str) -> (at: usize)
    ensures
        at <= ds@.len(),
        forall|i: int| 0 <= i < at ==> !text_before(name@, (#[trigger] ds@[i]).name@),
        at < ds@.len() ==> text_before(name@, ds@[at as int].name@),
{
    let mut at: usize = 0;
    while at < ds.len() && !comes_before(name, ds[at].name.as_str())
        invariant
            at <= ds@.len(),
            forall|i: int| 0 <= i < at ==> !text_before(name@, (#[trigger] ds@[i]).name@),
        decreases ds@.len() - at,
    {
        at = at + 1;
    }
    at
}

proof fn lemma_insert_keeps_sorted(tools: Seq<Tool>, tool: Tool, at: int)
    requires
        sorted_by_name(tools),
        0 <= at <= tools.len(),
        forall|i: int| 0 <= i < at ==> !text_before(tool.name@, (#[trigger] tools[i]).name@),
        at < tools.len() ==> text_before(tool.name@, tools[at].name@),
    ensures
        sorted_by_name(tools.insert(at, tool)),
{
    let more = tools.insert(at, tool);
    assert forall|i: int, j: int| 0 <= i < j < more.len() implies !text_before(
        (#[trigger] more[j]).name@,
        (#[trigger] more[i]).name@,
    ) by {
        if i == at {
            let first = tools[at].name@;
            let later = tools[j - 1].name@;
            lemma_before_trichotomy(tool.name@, later);
            if text_before(later, tool.name@) {
                lemma_before_transitive(later, tool.name@, first);
                assert(at < j - 1 ==> !text_before(later, first));
                lemma_before_trichotomy(first, first);
            }
        } else if j != at {
            let i0 = if i < at {
                i
            } else {
                i - 1
            };
            let j0 = if j < at {
                j
            } else {
                j - 1
            };
            assert(more[i] == tools[i0] && more[j] == tools[j0]);
        } else {
            assert(more[i] == tools[i]);
        }
    }
}

/// The tools on offer, no two of one name.
#[derive(Debug)]
pub struct ToolRegistry {
    tools: Vec<Tool>,
}

/// Whether no two tools have one name.
pub open spec fn names_distinct(tools: Seq<Tool>) -> bool {
    forall|i: int, j: int| 0 <= i < j < tools.len() ==> tools[i].name@ != tools[j].name@
}

/// The first place whose name stands earlier in the list too.
pub open spec fn first_repeat(tools: Seq<Tool>, k: int) -> bool {
    &&& 0 <= k < tools.len()
    &&& names_distinct(tools.take(k))
    &&& exists|i: int| 0 <= i < k && tools[i].name@ == tools[k].name@
}

impl View for ToolRegistry {
    type V = Seq<Tool>;

    closed spec fn view(&self) -> Seq<Tool> {
        self.tools@
    }
}

/// Whether a tool of that name is on offer.
pub open spec fn offers(tools: Seq<Tool>, name: Seq<char>) -> bool {
    exists|i: int| 0 <= i < tools.len() && (#[trigger] tools[i]).name@ == name
}

fn has_name(tools: &Vec<Tool>, upto: usize, name: &str) -> (r: bool)
    requires
        upto <= tools@.len(),
    ensures
        r == exists|i: int| 0 <= i < upto && (#[trigger] tools@[i]).name@ == name@,
{
    let mut i: usize = 0;
    while i < upto
        invariant
            i <= upto <= tools@.len(),
            forall|j: int| 0 <= j < i ==> (#[trigger] tools@[j]).name@ != name@,
        decreases upto - i,
    {
        if text::str_eq(tools[i].name.as_str(), name) {
            return true;
        }
        i = i + 1;
    }
    false
}

impl ToolRegistry {
    /// The registry's invariant.
    pub open spec fn wf(&self) -> bool {
        names_distinct(self@)
    }

    /// Registers tools; a second tool of one name is refused.
    pub fn new(tools: Vec<Tool>) -> (r: Result<Self, String>)
        ensures
            match r {
                Ok(registry) => registry.wf() && registry@ == tools@,
                Err(message) => exists|k: int|
                    #[trigger] first_repeat(tools@, k) && message@ == "duplicate tool registration: "@
                        + tools@[k].name@,
            },
            r is Ok <==> names_distinct(tools@),
    {
        let mut k: usize = 0;
        assert(names_distinct(tools@.take(0)));
        while k < tools.len()
            invariant
                k <= tools@.len(),
                names_distinct(tools@.take(k as int)),
            decreases tools@.len() - k,
        {
            let ghost head = tools@.take(k as int);
            if has_name(&tools, k, tools[k].name.as_str()) {
                assert(first_repeat(tools@, k as int));
                return Err(text::cat("duplicate tool registration: ", tools[k].name.as_str()));
            }
            let ghost more = tools@.take(k + 1);
            assert forall|i: int, j: int| 0 <= i < j < more.len() implies more[i].name@
                != more[j].name@ by {
                if j < k {
                    assert(head[i] == more[i] && head[j] == more[j]);
                } else {
                    assert(more[i] == tools@[i]);
                }
            }
            k = k + 1;
        }
        assert(tools@.take(k as int) =~= tools@);
        Ok(ToolRegistry { tools })
    }

    /// What callers are told of the tools, by name.
    pub fn descriptors(&self) -> (r: Vec<ToolDescriptor>)
        ensures
            exists|order: Seq<Tool>|
                #![trigger describe_all(r@, order)]
                describe_all(r@, order) && sorted_by_name(order) && order.to_multiset()
                    == self@.to_multiset(),
    {
        let mut out: Vec<ToolDescriptor> = Vec::new();
        let ghost mut order: Seq<Tool> = Seq::empty();
        let mut k: usize = 0;
        assert(self.tools@.take(0) =~= order);
        while k < self.tools.len()
            invariant
                k <= self.tools@.len(),
                describe_all(out@, order),
                sorted_by_name(order),
                order.to_multiset() == self.tools@.take(k as int).to_multiset(),
            decreases self.tools@.len() - k,
        {
            let tool = &self.tools[k];
            let d = describe(tool);
            let at: usize = place_for(&out, tool.name.as_str());
            let ghost before = out@;
            out.insert(at, d);
            proof {
                assert forall|i: int| 0 <= i < at implies !text_before(
                    tool.name@,
                    (#[trigger] order[i]).name@,
                ) by {
                    assert(describes(before[i], order[i]));
                }
                lemma_insert_keeps_sorted(order, *tool, at as int);
                assert(describe_all(out@, order.insert(at as int, *tool)));
                vstd::seq_lib::to_multiset_insert(order, at as int, *tool);
                let head = self.tools@.take(k as int);
                head.to_multiset_ensures();
                assert(self.tools@.take(k + 1) =~= head.push(*tool));
                order = order.insert(at as int, *tool);
            }
            k = k + 1;
        }
        assert(self.tools@.take(k as int) =~= self@);
        out
    }

    /// What the model is told of the tools.
    pub fn schemas(&self) -> (r: Vec<ToolSchema>)
        ensures
            r@.len() == self@.len(),
            forall|i: int| 0 <= i < r@.len() ==> presents(#[trigger] r@[i], self@[i]),
    {
        let mut out: Vec<ToolSchema> = Vec::new();
        let mut k: usize = 0;
        while k < self.tools.len()
            invariant
                k <= self.tools@.len(),
                self.tools@ == self@,
                out@.len() == k,
                forall|i: int| 0 <= i < k ==> presents(#[trigger] out@[i], self@[i]),
            decreases self.tools@.len() - k,
        {
            let tool = &self.tools[k];
            out.push(
                ToolSchema {
                    name: tool.name.clone(),
                    description: tool.description.clone(),
                    parameters: match &tool.parameters_schema {
                        Some(schema) => schema.clone(),
                        None => "{\"properties\":{},\"type\":\"object\"}".to_owned(),
                    },
                },
            );
            k = k + 1;
        }
        out
    }

    /// Whether a tool of that name is on offer.
    pub fn has(&self, tool_name: &str) -> (r: bool)
        ensures
            r == offers(self@, tool_name@),
    {
        has_name(&self.tools, self.tools.len(), tool_name)
    }

    /// The context in which a tool is run, or an error where no tool of that name is on offer.
    pub fn prepare(&self, request: &ToolExecutionRequest) -> (r: Result<RequestToolContext, String>)
        ensures
            match r {
                Ok(context) => offers(self@, request.tool_name@) && context.serves(*request),
                Err(message) => !offers(self@, request.tool_name@) && message@
                    == "tool not found: "@ + request.tool_name@,
            },
    {
        if self.has(request.tool_name.as_str()) {
            Ok(RequestToolContext::new(request))
        } else {
            Err(text::cat("tool not found: ", request.tool_name.as_str()))
        }
    }
}

impl Clone for ToolRegistry {
    fn clone(&self) -> (r: Self)
        ensures
            r@ == self@,
    {
        let tools = self.tools.clone();
        assert(tools@ =~= self.tools@);
        ToolRegistry { tools }
    }
}

impl Default for ToolRegistry {
    /// No tools at all.
    fn default() -> (r: Self)
        ensures
            r@ == Seq::<Tool>::empty(),
            r.wf(),
    {
        ToolRegistry { tools: Vec::new() }
    }
}

/// A call of a tool, with all that the tool is told; `args` is JSON text.
#[derive(Debug)]
pub struct ToolExecutionRequest {
    pub app_name: String,
    pub user_id: String,
    pub session_id: String,
    pub invocation_id: String,
    pub function_call_id: String,
    pub tool_name: String,
    pub args: String,
    pub user_content: Content,
}

/// What a tool gave back.
#[derive(Debug)]
pub struct ToolExecutionResult {
    pub function_call_id: String,
    pub tool_name: String,
    pub args: String,
    pub output: String,
}

/// A call that failed.
#[derive(Debug)]
pub struct ToolExecutionFailure {
    pub function_call_id: String,
    pub tool_name: String,
    pub args: String,
    pub message: String,
}

impl ToolExecutionRequest {
    /// The result of the call once the tool has given its output.
    pub fn completed(self, output: String) -> (r: ToolExecutionResult)
        ensures
            r.function_call_id@ == self.function_call_id@,
            r.tool_name@ == self.tool_name@,
            r.args@ == self.args@,
            r.output@ == output@,
    {
        ToolExecutionResult {
            function_call_id: self.function_call_id,
            tool_name: self.tool_name,
            args: self.args,
            output,
        }
    }
}

/// What a tool can read about the call that it serves.
#[derive(Debug)]
pub struct RequestToolContext {
    pub invocation_id: String,
    pub agent_name: String,
    pub user_id: String,
    pub app_name: String,
    pub session_id: String,
    pub branch: String,
    pub user_content: Content,
    pub function_call_id: String,
}

impl RequestToolContext {
    /// Whether this is the context of a call.
    pub open spec fn serves(&self, request: ToolExecutionRequest) -> bool {
        &&& self.invocation_id@ == request.invocation_id@
        &&& self.agent_name@ == "tool-call-engine"@
        &&& self.user_id@ == request.user_id@
        &&& self.app_name@ == request.app_name@
        &&& self.session_id@ == request.session_id@
        &&& self.branch@ == Seq::<char>::empty()
        &&& self.user_content@ == request.user_content@
        &&& self.function_call_id@ == request.function_call_id@
    }

    /// The context of a call.
    pub fn new(request: &ToolExecutionRequest) -> (r: Self)
        ensures
            r.serves(*request),
    {
        RequestToolContext {
            invocation_id: request.invocation_id.clone(),
            agent_name: "tool-call-engine".to_owned(),
            user_id: request.user_id.clone(),
            app_name: request.app_name.clone(),
            session_id: request.session_id.clone(),
            branch: String::new(),
            user_content: request.user_content.clone(),
            function_call_id: request.function_call_id.clone(),
        }
    }
}

/// The JSON schemas of a tool's arguments and result.
#[derive(Debug)]
pub struct SchemaPair {
    pub parameters: Option<String>,
    pub response: Option<String>,
}

/// The schemas of the built-in tools.
#[derive(Debug)]
pub struct BuiltinSchemas {
    pub sessions_list: SchemaPair,
    pub sessions_history: SchemaPair,
    pub math_add: SchemaPair,
    pub time_now: SchemaPair,
    pub english_learning_start_today: SchemaPair,
    pub english_learning_explain_focus_sentence: SchemaPair,
    pub english_learning_next_question: SchemaPair,
    pub english_learning_shadowing_feedback: SchemaPair,
    pub exec_command: SchemaPair,
}

/// The built-in tools by what they do.
#[derive(Debug, Clone, Copy, PartialEq, Eq, Structural)]
pub enum BuiltinTool {
    SessionsList,
    SessionsHistory,
    MathAdd,
    TimeNow,
    StartToday,
    ExplainFocusSentence,
    NextQuestion,
    ShadowingFeedback,
    ExecCommand,
}

/// The name under which a built-in tool is offered.
pub open spec fn builtin_name(tool: BuiltinTool) -> Seq<char> {
    match tool {
        BuiltinTool::SessionsList => "sessions_list"@,
        BuiltinTool::SessionsHistory => "sessions_history"@,
        BuiltinTool::MathAdd => "math_add"@,
        BuiltinTool::TimeNow => "time_now"@,
        BuiltinTool::StartToday => "english_learning_start_today"@,
        BuiltinTool::ExplainFocusSentence => "english_learning_explain_focus_sentence"@,
        BuiltinTool::NextQuestion => "english_learning_next_question"@,
        BuiltinTool::ShadowingFeedback => "english_learning_shadowing_feedback"@,
        BuiltinTool::ExecCommand => "exec_command"@,
    }
}

impl BuiltinTool {
    /// The name under which the tool is offered.
    pub fn name(self) -> (r: &'static str)
        ensures
            r@ == builtin_name(self),
    {
        match self {
            BuiltinTool::SessionsList => "sessions_list",
            BuiltinTool::SessionsHistory => "sessions_history",
            BuiltinTool::MathAdd => "math_add",
            BuiltinTool::TimeNow => "time_now",
            BuiltinTool::StartToday => "english_learning_start_today",
            BuiltinTool::ExplainFocusSentence => "english_learning_explain_focus_sentence",
            BuiltinTool::NextQuestion => "english_learning_next_question",
            BuiltinTool::ShadowingFeedback => "english_learning_shadowing_feedback",
            BuiltinTool::ExecCommand => "exec_command",
        }
    }

    /// The built-in tool of a name.
    pub fn named(name: &str) -> (r: Option<BuiltinTool>)
        ensures
            match r {
                Some(tool) => builtin_name(tool) == name@,
                None => forall|tool: BuiltinTool| #[trigger] builtin_name(tool) != name@,
            },
    {
        if text::str_eq(name, "sessions_list") {
            Some(BuiltinTool::SessionsList)
        } else if text::str_eq(name, "sessions_history") {
            Some(BuiltinTool::SessionsHistory)
        } else if text::str_eq(name, "math_add") {
            Some(BuiltinTool::MathAdd)
        } else if text::str_eq(name, "time_now") {
            Some(BuiltinTool::TimeNow)
        } else if text::str_eq(name, "english_learning_start_today") {
            Some(BuiltinTool::StartToday)
        } else if text::str_eq(name, "english_learning_explain_focus_sentence") {
            Some(BuiltinTool::ExplainFocusSentence)
        } else if text::str_eq(name, "english_learning_next_question") {
            Some(BuiltinTool::NextQuestion)
        } else if text::str_eq(name, "english_learning_shadowing_feedback") {
            Some(BuiltinTool::ShadowingFeedback)
        } else if text::str_eq(name, "exec_command") {
            Some(BuiltinTool::ExecCommand)
        } else {
            None
        }
    }
}

proof fn lemma_builtin_names_differ(a: BuiltinTool, b: BuiltinTool)
    ensures
        builtin_name(a) == builtin_name(b) ==> a == b,
{
    reveal_strlit("sessions_list");
    reveal_strlit("sessions_history");
    reveal_strlit("math_add");
    reveal_strlit("time_now");
    reveal_strlit("english_learning_start_today");
    reveal_strlit("english_learning_explain_focus_sentence");
    reveal_strlit("english_learning_next_question");
    reveal_strlit("english_learning_shadowing_feedback");
    reveal_strlit("exec_command");
    if builtin_name(a) == builtin_name(b) {
        assert(builtin_name(a).len() == builtin_name(b).len());
        assert(builtin_name(a)[0] == builtin_name(b)[0]);
    }
}

/// Whether a tool carries the given name, description and schemas and answers at once.
pub open spec fn tool_is(
    tool: Tool,
    name: Seq<char>,
    description: Seq<char>,
    schemas: SchemaPair,
) -> bool {
    &&& tool.name@ == name
    &&& tool.description@ == description
    &&& tool.parameters_schema == schemas.parameters
    &&& tool.response_schema == schemas.response
    &&& !tool.long_running
}

/// The built-in tools: the shell tool is among them only where it is enabled.
pub open spec fn are_builtin(tools: Seq<Tool>, schemas: BuiltinSchemas, shell: bool) -> bool {
    &&& tools.len() == if shell {
        9int
    } else {
        8
    }
    &&& tool_is(
        tools[0],
        "sessions_list"@,
        "List in-memory sessions and their latest message preview."@,
        schemas.sessions_list,
    )
    &&& tool_is(
        tools[1],
        "sessions_history"@,
        "Read recent message history from one session."@,
        schemas.sessions_history,
    )
    &&& tool_is(
        tools[2],
        "math_add"@,
        "Add two numbers."@,
        schemas.math_add,
    )
    &&& tool_is(
        tools[3],
        "time_now"@,
        "Return the current server time in Unix milliseconds and a simple UTC string."@,
        schemas.time_now,
    )
    &&& tool_is(
        tools[4],
        "english_learning_start_today"@,
        "Start today's English lesson and return its learning card."@,
        schemas.english_learning_start_today,
    )
    &&& tool_is(
        tools[5],
        "english_learning_explain_focus_sentence"@,
        "Explain a focus sentence of today's English lesson."@,
        schemas.english_learning_explain_focus_sentence,
    )
    &&& tool_is(
        tools[6],
        "english_learning_next_question"@,
        "Ask the next question of today's English lesson."@,
        schemas.english_learning_next_question,
    )
    &&& tool_is(
        tools[7],
        "english_learning_shadowing_feedback"@,
        "Give feedback on English text that the learner repeated aloud."@,
        schemas.english_learning_shadowing_feedback,
    )
    &&& shell ==> tool_is(
        tools[8],
        "exec_command"@,
        "Execute a shell command on the current server and return its exit code plus captured stdout/stderr."@,
        schemas.exec_command,
    )
}

fn plain_tool(name: &str, description: &str, schemas: SchemaPair) -> (r: Tool)
    ensures
        tool_is(r, name@, description@, schemas),
{
    Tool {
        name: name.to_owned(),
        description: description.to_owned(),
        parameters_schema: schemas.parameters,
        response_schema: schemas.response,
        long_running: false,
    }
}

/// Registers the built-in tools.
pub fn build_builtin_registry(
    schemas: BuiltinSchemas,
    exec_command_config: &ExecCommandToolConfig,
) -> (r: Result<ToolRegistry, String>)
    ensures
        r is Ok,
        r->Ok_0.wf(),
        are_builtin(r->Ok_0@, schemas, exec_command_config.enabled),
{
    let mut tools: Vec<Tool> = Vec::new();
    tools.push(
        plain_tool(
            "sessions_list",
            "List in-memory sessions and their latest message preview.",
            schemas.sessions_list,
        ),
    );
    tools.push(
        plain_tool(
            "sessions_history",
            "Read recent message history from one session.",
            schemas.sessions_history,
        ),
    );
    tools.push(
        plain_tool(
            "math_add",
            "Add two numbers.",
            schemas.math_add,
        ),
    );
    tools.push(
        plain_tool(
            "time_now",
            "Return the current server time in Unix milliseconds and a simple UTC string.",
            schemas.time_now,
        ),
    );
    tools.push(
        plain_tool(
            "english_learning_start_today",
            "Start today's English lesson and return its learning card.",
            schemas.english_learning_start_today,
        ),
    );
    tools.push(
        plain_tool(
            "english_learning_explain_focus_sentence",
            "Explain a focus sentence of today's English lesson.",
            schemas.english_learning_explain_focus_sentence,
        ),
    );
    tools.push(
        plain_tool(
            "english_learning_next_question",
            "Ask the next question of today's English lesson.",
            schemas.english_learning_next_question,
        ),
    );
    tools.push(
        plain_tool(
            "english_learning_shadowing_feedback",
            "Give feedback on English text that the learner repeated aloud.",
            schemas.english_learning_shadowing_feedback,
        ),
    );
    if exec_command_config.enabled {
        tools.push(
            plain_tool(
                "exec_command",
                "Execute a shell command on the current server and return its exit code plus captured stdout/stderr.",
                schemas.exec_command,
            ),
        );
    }
    proof {
        assert forall|i: int, j: int| 0 <= i < j < tools@.len() implies tools@[i].name@
            != tools@[j].name@ by {
            lemma_builtin_names_differ(builtin_at(i), builtin_at(j));
        }
    }
    ToolRegistry::new(tools)
}

/// The built-in tools in the order in which they are registered.
pub open spec fn builtin_at(i: int) -> BuiltinTool {
    if i == 0 {
        BuiltinTool::SessionsList
    } else if i == 1 {
        BuiltinTool::SessionsHistory
    } else if i == 2 {
        BuiltinTool::MathAdd
    } else if i == 3 {
        BuiltinTool::TimeNow
    } else if i == 4 {
        BuiltinTool::StartToday
    } else if i == 5 {
        BuiltinTool::ExplainFocusSentence
    } else if i == 6 {
        BuiltinTool::NextQuestion
    } else if i == 7 {
        BuiltinTool::ShadowingFeedback
    } else {
        BuiltinTool::ExecCommand
    }
}

/// The tools that are registered are exactly the built-in ones, the shell tool only where it is
/// enabled: each can be found by its name, and no other name is offered.
pub proof fn law_registered_tools_are_builtin(
    tools: Seq<Tool>,
    schemas: BuiltinSchemas,
    shell: bool,
    name: Seq<char>,
)
    requires
        are_builtin(tools, schemas, shell),
    ensures
        offers(tools, name) <==> exists|tool: BuiltinTool| #[trigger]
            builtin_name(tool) == name && (shell || tool !is ExecCommand),
{
    if offers(tools, name) {
        let i = choose|i: int| 0 <= i < tools.len() && (#[trigger] tools[i]).name@ == name;
        assert(builtin_name(builtin_at(i)) == name);
    }
    if exists|tool: BuiltinTool| #[trigger]
        builtin_name(tool) == name && (shell || tool !is ExecCommand) {
        let tool = choose|tool: BuiltinTool| #[trigger]
            builtin_name(tool) == name && (shell || tool !is ExecCommand);
        let i: int = match tool {
            BuiltinTool::SessionsList => 0,
            BuiltinTool::SessionsHistory => 1,
            BuiltinTool::MathAdd => 2,
            BuiltinTool::TimeNow => 3,
            BuiltinTool::StartToday => 4,
            BuiltinTool::ExplainFocusSentence => 5,
            BuiltinTool::NextQuestion => 6,
            BuiltinTool::ShadowingFeedback => 7,
            BuiltinTool::ExecCommand => 8,
        };
        assert(tools[i].name@ == name);
    }
}

/// What the shell tool is asked to do.
#[derive(Debug)]
pub struct ExecCommandArgs {
    pub cmd: String,
    pub workdir: Option<String>,
    pub timeout_secs: Option<u64>,
    pub max_output_chars: Option<usize>,
    pub shell: Option<String>,
}

/// What the shell tool answers.
#[derive(Debug)]
pub struct ExecCommandResult {
    pub success: bool,
    pub exit_code: Option<i32>,
    pub stdout: String,
    pub stderr: String,
    pub timed_out: bool,
    pub command: String,
    pub workdir: Option<String>,
}

/// A command ready to be run: `shell -lc command`, in `workdir` where one is given.
#[derive(Debug)]
pub struct ExecPlan {
    pub shell: String,
    pub command: String,
    pub workdir: Option<String>,
    pub timeout_secs: u64,
    pub max_output_chars: usize,
}

/// How a command ended.
#[derive(Debug)]
pub enum ExecOutcome {
    TimedOut,
    Finished { success: bool, exit_code: Option<i32>, stdout: Vec<u8>, stderr: Vec<u8> },
}

/// A number brought into a range.
pub open spec fn clamped(n: int, low: int, high: int) -> int {
    if n < low {
        low
    } else if n > high {
        high
    } else {
        n
    }
}

/// The text of an option that holds more than white space.
pub open spec fn filled(o: Option<String>) -> Option<Seq<char>> {
    match o {
        Some(s) => if text::is_blank(s@) {
            None
        } else {
            Some(s@)
        },
        None => None,
    }
}

/// Keeps an option that holds more than white space.
pub fn keep_filled(o: &Option<String>) -> (r: Option<String>)
    ensures
        text::opt_view(r) == filled(*o),
{
    match o {
        Some(s) => if text::blank(s.as_str()) {
            None
        } else {
            Some(s.clone())
        },
        None => None,
    }
}

/// Decides how a command is run: a blank command is refused, a blank shell or directory counts as
/// none, and the limits are brought into their ranges.
pub fn plan_exec_command(input: &ExecCommandArgs, config: &ExecCommandToolConfig) -> (r: Result<
    ExecPlan,
    String,
>)
    ensures
        match r {
            Err(message) => text::is_blank(input.cmd@) && message@ == "cmd must not be empty"@,
            Ok(plan) => {
                &&& !text::is_blank(input.cmd@)
                &&& plan.command@ == text::trimmed(input.cmd@)
                &&& plan.shell@ == match filled(input.shell) {
                    Some(shell) => shell,
                    None => config.shell@,
                }
                &&& text::opt_view(plan.workdir) == filled(input.workdir)
                &&& plan.timeout_secs == clamped(
                    match input.timeout_secs {
                        Some(n) => n as int,
                        None => config.timeout_secs as int,
                    },
                    1,
                    120,
                )
                &&& plan.max_output_chars == clamped(
                    match input.max_output_chars {
                        Some(n) => n as int,
                        None => config.max_output_chars as int,
                    },
                    128,
                    20_000,
                )
            },
        },
{
    if text::blank(input.cmd.as_str()) {
        return Err("cmd must not be empty".to_owned());
    }
    let shell = match keep_filled(&input.shell) {
        Some(shell) => shell,
        None => config.shell.clone(),
    };
    let seconds: u64 = match input.timeout_secs {
        Some(n) => n,
        None => config.timeout_secs,
    };
    let timeout_secs: u64 = if seconds < 1 {
        1
    } else if seconds > 120 {
        120
    } else {
        seconds
    };
    let chars: usize = match input.max_output_chars {
        Some(n) => n,
        None => config.max_output_chars,
    };
    let max_output_chars: usize = if chars < 128 {
        128
    } else if chars > 20_000 {
        20_000
    } else {
        chars
    };
    Ok(
        ExecPlan {
            shell,
            command: text::trim(input.cmd.as_str()).to_owned(),
            workdir: keep_filled(&input.workdir),
            timeout_secs,
            max_output_chars,
        },
    )
}

/// What the shell tool shows of an output: the trimmed text cut after `max` characters, marked
/// where the output itself was longer.
pub open spec fn cut_output(value: Seq<char>, max: nat) -> Seq<char> {
    let head = text::first_chars(text::trimmed(value), max);
    if value.len() > max {
        head + "..."@
    } else {
        head
    }
}

/// Trims an output and cuts it after `max_chars` characters.
pub fn truncate_output(value: &str, max_chars: usize) -> (r: String)
    ensures
        r@ == cut_output(value@, max_chars as nat),
{
    let head = text::take_chars(text::trim(value), max_chars);
    if value.unicode_len() > max_chars {
        text::cat(head.as_str(), "...")
    } else {
        head
    }
}

/// What is shown of an output is hardly longer than allowed.
pub proof fn law_output_is_bounded(value: Seq<char>, max: nat)
    ensures
        cut_output(value, max).len() <= max + 3,
{
    reveal_strlit("...");
}

/// What the shell tool answers once the command has ended.
pub open spec fn exec_answer(
    plan: ExecPlan,
    workdir: Option<String>,
    outcome: ExecOutcome,
    r: ExecCommandResult,
) -> bool {
    &&& r.command@ == plan.command@
    &&& text::opt_view(r.workdir) == text::opt_view(workdir)
    &&& match outcome {
        ExecOutcome::TimedOut => {
            &&& !r.success
            &&& r.exit_code is None
            &&& r.stdout@ == Seq::<char>::empty()
            &&& r.stderr@ == "command timed out after "@ + number::decimal(
                plan.timeout_secs as nat,
            ) + "s"@
            &&& r.timed_out
        },
        ExecOutcome::Finished { success, exit_code, stdout, stderr } => {
            let max = plan.max_output_chars as nat;
            &&& r.success == success
            &&& r.exit_code == exit_code
            &&& r.stdout@ == cut_output(outside::lossy_utf8(stdout@), max)
            &&& r.stderr@ == cut_output(outside::lossy_utf8(stderr@), max)
            &&& !r.timed_out
        },
    }
}

/// Answers for a command that has ended; `workdir` is the directory as it was asked for.
pub fn finish_exec_command(
    plan: &ExecPlan,
    workdir: &Option<String>,
    outcome: &ExecOutcome,
) -> (r: ExecCommandResult)
    ensures
        exec_answer(*plan, *workdir, *outcome, r),
{
    match outcome {
        ExecOutcome::TimedOut => ExecCommandResult {
            success: false,
            exit_code: None,
            stdout: String::new(),
            stderr: text::cat3(
                "command timed out after ",
                number::decimal_text(plan.timeout_secs).as_str(),
                "s",
            ),
            timed_out: true,
            command: plan.command.clone(),
            workdir: text::copy_opt(workdir),
        },
        ExecOutcome::Finished { success, exit_code, stdout, stderr } => {
            let out = outside::utf8_lossy_text(stdout.as_slice());
            let err = outside::utf8_lossy_text(stderr.as_slice());
            ExecCommandResult {
                success: *success,
                exit_code: *exit_code,
                stdout: truncate_output(out.as_str(), plan.max_output_chars),
                stderr: truncate_output(err.as_str(), plan.max_output_chars),
                timed_out: false,
                command: plan.command.clone(),
                workdir: text::copy_opt(workdir),
            }
        },
    }
}

/// A time in Unix milliseconds as seconds with three decimals.
pub open spec fn unix_ms_text(unix_ms: nat) -> Seq<char> {
    number::decimal(unix_ms / 1_000) + "."@ + number::three_digits(unix_ms % 1_000) + "Z"@
}

/// Writes a time in Unix milliseconds as seconds with three decimals.
pub fn format_unix_ms(unix_ms: u64) -> (r: String)
    ensures
        r@ == unix_ms_text(unix_ms as nat),
{
    text::cat4(
        number::decimal_text(unix_ms / 1_000).as_str(),
        ".",
        number::three_digit_text(unix_ms % 1_000).as_str(),
        "Z",
    )
}

} // verus!
