//! What the HTTP interface answers.

use vstd::prelude::*;
use vstd::string::*;
use vstd::utf8::*;

use crate::channel::feishu;
use crate::channel::InboundTextMessage;
use crate::encoding;
use crate::engine::turn::ChatTurnResponse;
use crate::engine::util;
use crate::engine::ChatTurnRequest;
use crate::number;
use crate::outside;
use crate::text;
use crate::tools::ToolExecutionResult;

verus! {

/// A request to chat.
#[derive(Debug)]
pub struct ChatRequest {
    pub session_id: String,
    pub user_id: String,
    pub message: String,
    pub system_prompt: Option<String>,
    pub max_iterations: Option<usize>,
    pub persist: bool,
}

/// The session of a request that names none.
pub fn default_session_id() -> (r: String)
    ensures
        r@ == "main"@,
{
    "main".to_owned()
}

/// The user of a request that names none.
pub fn default_user_id() -> (r: String)
    ensures
        r@ == "anonymous"@,
{
    "anonymous".to_owned()
}

/// Whether a turn is kept where a request does not say.
pub fn default_persist() -> (r: bool)
    ensures
        r,
{
    true
}

/// A request that is refused or could not be served.
#[derive(Debug)]
pub struct HttpError {
    pub status: u16,
    pub error_type: String,
    pub message: String,
}

/// The contents of such an answer.
pub struct HttpErrorView {
    pub status: u16,
    pub error_type: Seq<char>,
    pub message: Seq<char>,
}

impl View for HttpError {
    type V = HttpErrorView;

    open spec fn view(&self) -> HttpErrorView {
        HttpErrorView {
            status: self.status,
            error_type: self.error_type@,
            message: self.message@,
        }
    }
}

/// An answer that refuses a request.
pub fn render_error(status: u16, error_type: &str, message: &str) -> (r: HttpError)
    ensures
        r@ == (HttpErrorView { status, error_type: error_type@, message: message@ }),
{
    HttpError { status, error_type: error_type.to_owned(), message: message.to_owned() }
}

/// The turn that a request to chat asks for.
pub fn chat_turn(body: ChatRequest) -> (r: ChatTurnRequest)
    ensures
        r.session_id == body.session_id,
        r.user_id == body.user_id,
        r.message == body.message,
        r.system_prompt == body.system_prompt,
        r.max_iterations == body.max_iterations,
        r.persist == body.persist,
{
    ChatTurnRequest {
        session_id: body.session_id,
        user_id: body.user_id,
        message: body.message,
        system_prompt: body.system_prompt,
        max_iterations: body.max_iterations,
        persist: body.persist,
    }
}

/// The answer to a request to chat.
pub fn chat(outcome: Result<ChatTurnResponse, String>) -> (r: Result<ChatTurnResponse, HttpError>)
    ensures
        match (outcome, r) {
            (Ok(response), Ok(shown)) => shown == response,
            (Err(error), Err(e)) => e@ == (HttpErrorView {
                status: 500,
                error_type: "tool_loop_failed"@,
                message: error@,
            }),
            _ => false,
        },
{
    match outcome {
        Ok(response) => Ok(response),
        Err(error) => Err(render_error(500, "tool_loop_failed", error.as_str())),
    }
}

/// The answer to a body that is no valid request.
pub fn invalid_json(error: &str) -> (r: HttpError)
    ensures
        r@ == (HttpErrorView { status: 400, error_type: "invalid_json"@, message: error@ }),
{
    render_error(400, "invalid_json", error)
}

/// The answer to a body that could not be read.
pub fn invalid_request_body(error: &str) -> (r: HttpError)
    ensures
        r@ == (HttpErrorView { status: 400, error_type: "invalid_request_body"@, message: error@ }),
{
    render_error(400, "invalid_request_body", error)
}

/// The session whose history is asked for.
pub fn history_session(session_id: Option<String>) -> (r: Result<String, HttpError>)
    ensures
        match r {
            Ok(id) => session_id == Some(id),
            Err(e) => session_id is None && e@ == (HttpErrorView {
                status: 400,
                error_type: "invalid_request"@,
                message: "missing session_id"@,
            }),
        },
{
    match session_id {
        Some(id) => Ok(id),
        None => Err(render_error(400, "invalid_request", "missing session_id")),
    }
}

/// The answer to a direct call of a tool: its output.
pub fn invoke_tool(outcome: Result<ToolExecutionResult, String>) -> (r: Result<String, HttpError>)
    ensures
        match (outcome, r) {
            (Ok(result), Ok(output)) => output == result.output,
            (Err(error), Err(e)) => e@ == (HttpErrorView {
                status: 400,
                error_type: "tool_execution_failed"@,
                message: error@,
            }),
            _ => false,
        },
{
    match outcome {
        Ok(result) => Ok(result.output),
        Err(error) => Err(render_error(400, "tool_execution_failed", error.as_str())),
    }
}

/// One field of a JSON object; the value is JSON text.
#[derive(Debug)]
pub struct JsonField {
    pub key: String,
    pub value: String,
}

impl View for JsonField {
    type V = (Seq<char>, Seq<char>);

    open spec fn view(&self) -> (Seq<char>, Seq<char>) {
        (self.key@, self.value@)
    }
}

/// The arguments of a tool.
#[derive(Debug)]
pub enum JsonArgs {
    Null,
    Object(Vec<JsonField>),
    /// Any other value, as JSON text.
    Other(String),
}

/// The contents of arguments.
pub enum ArgsView {
    Null,
    Object(Seq<(Seq<char>, Seq<char>)>),
    Other(Seq<char>),
}

/// The contents of the fields of an object.
pub open spec fn fields_view(fields: Seq<JsonField>) -> Seq<(Seq<char>, Seq<char>)> {
    fields.map_values(|f: JsonField| f@)
}

impl View for JsonArgs {
    type V = ArgsView;

    open spec fn view(&self) -> ArgsView {
        match *self {
            JsonArgs::Null => ArgsView::Null,
            JsonArgs::Object(fields) => ArgsView::Object(fields_view(fields@)),
            JsonArgs::Other(text) => ArgsView::Other(text@),
        }
    }
}

/// The arguments of a call that names none: an object without fields.
pub fn default_args() -> (r: JsonArgs)
    ensures
        r@ == ArgsView::Object(Seq::empty()),
{
    let fields: Vec<JsonField> = Vec::new();
    assert(fields_view(fields@) =~= Seq::empty());
    JsonArgs::Object(fields)
}

/// Whether an object has a field.
pub open spec fn has_key(fields: Seq<(Seq<char>, Seq<char>)>, key: Seq<char>) -> bool {
    exists|i: int| 0 <= i < fields.len() && (#[trigger] fields[i]).0 == key
}

/// Arguments with an action among them: an object gets it where it has none of its own, and where
/// there are no arguments it is the only one. Other arguments stay as they are.
pub open spec fn merged_args(args: ArgsView, action: Option<Seq<char>>) -> ArgsView {
    match action {
        None => args,
        Some(a) => match args {
            ArgsView::Object(fields) => if has_key(fields, "action"@) {
                args
            } else {
                ArgsView::Object(fields.push(("action"@, encoding::json_string(a))))
            },
            ArgsView::Null => ArgsView::Object(seq![("action"@, encoding::json_string(a))]),
            ArgsView::Other(_) => args,
        },
    }
}

fn contains_key(fields: &Vec<JsonField>, key: &str) -> (r: bool)
    ensures
        r == has_key(fields_view(fields@), key@),
{
    let ghost all = fields_view(fields@);
    let mut i: usize = 0;
    while i < fields.len()
        invariant
            i <= fields@.len(),
            all == fields_view(fields@),
            forall|j: int| 0 <= j < i ==> (#[trigger] all[j]).0 != key@,
        decreases fields@.len() - i,
    {
        assert(all[i as int] == fields@[i as int]@);
        if text::str_eq(fields[i].key.as_str(), key) {
            return true;
        }
        i = i + 1;
    }
    false
}

/// Puts an action among the arguments of a tool.
pub fn merge_action_into_args(args: JsonArgs, action: Option<String>) -> (r: JsonArgs)
    ensures
        r@ == merged_args(args@, text::opt_view(action)),
{
    let a = match action {
        Some(a) => a,
        None => return args,
    };
    let field = JsonField { key: "action".to_owned(), value: outside::json_quote(a.as_str()) };
    match args {
        JsonArgs::Object(fields) => {
            if contains_key(&fields, "action") {
                JsonArgs::Object(fields)
            } else {
                let ghost before = fields_view(fields@);
                let mut more = fields;
                more.push(field);
                assert(fields_view(more@) =~= before.push(field@));
                JsonArgs::Object(more)
            }
        },
        JsonArgs::Null => {
            let only = vec![field];
            assert(fields_view(only@) =~= seq![field@]);
            JsonArgs::Object(only)
        },
        JsonArgs::Other(text) => JsonArgs::Other(text),
    }
}

/// An action that the caller put among the arguments is never replaced, and merging a second time
/// changes nothing.
pub proof fn law_action_is_merged_once(args: ArgsView, a: Seq<char>, b: Seq<char>)
    ensures
        merged_args(merged_args(args, Some(a)), Some(b)) == merged_args(args, Some(a)),
{
    let once = merged_args(args, Some(a));
    if let ArgsView::Object(fields) = once {
        if args is Null || !has_key(args->Object_0, "action"@) {
            assert(fields.last().0 == "action"@);
            assert(has_key(fields, "action"@)) by {
                assert(fields[fields.len() - 1].0 == "action"@);
            }
        }
    }
}

/// Bytes on one short line, or how many there are where they are no text.
pub open spec fn bytes_preview(b: Seq<u8>, limit: nat) -> Seq<char> {
    if valid_utf8(b) {
        util::preview_of(decode_utf8(b), limit)
    } else {
        "<non-utf8:"@ + number::decimal(b.len()) + " bytes>"@
    }
}

/// Shows bytes on one short line.
pub fn preview_bytes(bytes: &[u8], limit: usize) -> (r: String)
    ensures
        r@ == bytes_preview(bytes@, limit as nat),
{
    match outside::utf8_text(bytes) {
        Some(s) => util::preview_text(s, limit),
        None => text::cat3(
            "<non-utf8:",
            number::decimal_text(bytes.len() as u64).as_str(),
            " bytes>",
        ),
    }
}

/// The body of a callback: JSON, where an empty one counts as an empty object.
pub open spec fn callback_body(bytes: Seq<u8>) -> Result<Seq<char>, Seq<char>> {
    if bytes.len() == 0 {
        Ok("{}"@)
    } else {
        outside::json_of_bytes(bytes)
    }
}

/// Reads the body of a callback.
pub fn read_callback_body(bytes: &[u8]) -> (r: Result<String, HttpError>)
    ensures
        match r {
            Ok(text) => callback_body(bytes@) == Ok::<Seq<char>, Seq<char>>(text@),
            Err(e) => callback_body(bytes@) is Err && e@ == (HttpErrorView {
                status: 400,
                error_type: "invalid_json"@,
                message: callback_body(bytes@)->Err_0,
            }),
        },
{
    if bytes.len() == 0 {
        return Ok("{}".to_owned());
    }
    match outside::json_from_bytes(bytes) {
        Ok(text) => Ok(text),
        Err(problem) => Err(invalid_json(problem.as_str())),
    }
}

/// Why a callback is refused.
#[derive(Debug, Clone, Copy, PartialEq, Eq, Structural)]
pub enum FeishuCallbackErrorKind {
    BadRequest,
    Unauthorized,
}

/// A callback that is refused.
#[derive(Debug)]
pub struct FeishuCallbackError {
    pub kind: FeishuCallbackErrorKind,
    pub message: String,
}

/// What an accepted callback brings.
#[derive(Debug)]
pub enum FeishuCallbackEvent {
    /// A text message.
    Text(InboundTextMessage),
    /// A message that is not answered.
    Ignored { reason: String },
    /// No message: the callback itself is answered, with this JSON text.
    NotMessage { response_body: String },
    /// A message that could not be read.
    Unreadable { error: String },
}

/// How a callback is answered.
#[derive(Debug)]
pub enum CallbackReply {
    /// With this JSON text, and perhaps a message is handled in the background.
    Body { body: String, message: Option<InboundTextMessage> },
    /// It is refused.
    Refused(HttpError),
}

/// The answer to a callback that is refused.
pub open spec fn refusal(error: FeishuCallbackError) -> HttpErrorView {
    match error.kind {
        FeishuCallbackErrorKind::BadRequest => HttpErrorView {
            status: 400,
            error_type: "feishu_callback_invalid"@,
            message: error.message@,
        },
        FeishuCallbackErrorKind::Unauthorized => HttpErrorView {
            status: 401,
            error_type: "feishu_callback_unauthorized"@,
            message: error.message@,
        },
    }
}

/// Whether a callback is answered in a way. Whatever becomes of a message, it is acknowledged; only
/// what is no message gets an answer of its own.
pub open spec fn answers(
    outcome: Result<FeishuCallbackEvent, FeishuCallbackError>,
    r: CallbackReply,
) -> bool {
    match outcome {
        Err(error) => r matches CallbackReply::Refused(e) && e@ == refusal(error),
        Ok(FeishuCallbackEvent::Text(event)) => r matches CallbackReply::Body { body, message }
            && body@ == feishu::ack_text() && message == Some(event),
        Ok(FeishuCallbackEvent::NotMessage { response_body }) => r matches CallbackReply::Body {
            body,
            message,
        } && body@ == response_body@ && message is None,
        Ok(_) => r matches CallbackReply::Body { body, message } && body@ == feishu::ack_text()
            && message is None,
    }
}

/// Answers a callback.
pub fn feishu_callback(
    outcome: Result<FeishuCallbackEvent, FeishuCallbackError>,
) -> (r: CallbackReply)
    ensures
        answers(outcome, r),
{
    match outcome {
        Ok(FeishuCallbackEvent::Text(event)) => CallbackReply::Body {
            body: feishu::callback_ack(),
            message: Some(event),
        },
        Ok(FeishuCallbackEvent::NotMessage { response_body }) => CallbackReply::Body {
            body: response_body,
            message: None,
        },
        Ok(_) => CallbackReply::Body { body: feishu::callback_ack(), message: None },
        Err(error) => {
            let message = error.message.as_str();
            CallbackReply::Refused(
                match error.kind {
                    FeishuCallbackErrorKind::BadRequest => render_error(
                        400,
                        "feishu_callback_invalid",
                        message,
                    ),
                    FeishuCallbackErrorKind::Unauthorized => render_error(
                        401,
                        "feishu_callback_unauthorized",
                        message,
                    ),
                },
            )
        },
    }
}

/// The turn that answers a Feishu message; it is kept in the session.
pub fn feishu_turn(event: &InboundTextMessage) -> (r: ChatTurnRequest)
    ensures
        r.session_id@ == event.session_id@,
        r.user_id@ == event.user_id@,
        r.message@ == event.text@,
        r.system_prompt is None,
        r.max_iterations is None,
        r.persist,
{
    ChatTurnRequest {
        session_id: event.session_id.clone(),
        user_id: event.user_id.clone(),
        message: event.text.clone(),
        system_prompt: None,
        max_iterations: None,
        persist: true,
    }
}

} // verus!
