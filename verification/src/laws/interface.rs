//! What holds of the HTTP interface.

use vstd::prelude::*;
use vstd::string::*;
use vstd::utf8::*;

use crate::channel::InboundTextMessage;
use crate::encoding;
use crate::engine::turn::ChatTurnResponse;
use crate::engine::util;
use crate::engine::ChatTurnRequest;
use crate::http_api;
use crate::http_api::{
    CallbackReply, ChatRequest, FeishuCallbackError, FeishuCallbackErrorKind, FeishuCallbackEvent,
    HttpError, JsonArgs,
};
use crate::number;
use crate::outside;
use crate::text;
use crate::tools::ToolExecutionResult;
use crate::web::pages;

verus! {

/// Whether an answer refuses with a status, a kind and a message.
pub open spec fn refuses(e: HttpError, status: u16, kind: Seq<char>, message: Seq<char>) -> bool {
    &&& e.status == status
    &&& e.error_type@ == kind
    &&& e.message@ == message
}

/// A request to chat becomes a turn as it stands.
pub proof fn law_chat_becomes_a_turn(body: ChatRequest, r: ChatTurnRequest)
    requires
        call_ensures(http_api::chat_turn, (body,), r),
    ensures
        r.session_id@ == body.session_id@,
        r.user_id@ == body.user_id@,
        r.message@ == body.message@,
        text::opt_view(r.system_prompt) == text::opt_view(body.system_prompt),
        r.max_iterations == body.max_iterations,
        r.persist == body.persist,
{
}

/// A request that names no session, user or storing means the main session, an anonymous user, and
/// that the turn is kept.
pub proof fn law_defaults_of_a_request(session: String, user: String, persist: bool, args: JsonArgs)
    requires
        call_ensures(http_api::default_session_id, (), session),
        call_ensures(http_api::default_user_id, (), user),
        call_ensures(http_api::default_persist, (), persist),
        call_ensures(http_api::default_args, (), args),
    ensures
        session@ == "main"@,
        user@ == "anonymous"@,
        persist,
        args matches JsonArgs::Object(fields) && fields@.len() == 0,
{
    if let JsonArgs::Object(fields) = args {
        assert(http_api::fields_view(fields@).len() == fields@.len());
    }
}

/// A turn that was held is answered with its response; one that failed is an error of the server, in
/// its own words.
pub proof fn law_chat_is_answered(
    outcome: Result<ChatTurnResponse, String>,
    r: Result<ChatTurnResponse, HttpError>,
)
    requires
        call_ensures(http_api::chat, (outcome,), r),
    ensures
        r is Ok <==> outcome is Ok,
        outcome matches Ok(response) ==> r->Ok_0 == response,
        outcome matches Err(m) ==> refuses(r->Err_0, 500, "tool_loop_failed"@, m@),
{
}

/// A direct call is answered with the output of the tool; one that failed is an error of the caller.
pub proof fn law_direct_call_is_answered(
    outcome: Result<ToolExecutionResult, String>,
    r: Result<String, HttpError>,
)
    requires
        call_ensures(http_api::invoke_tool, (outcome,), r),
    ensures
        r is Ok <==> outcome is Ok,
        outcome matches Ok(result) ==> r->Ok_0@ == result.output@,
        outcome matches Err(m) ==> refuses(r->Err_0, 400, "tool_execution_failed"@, m@),
{
}

/// A history is that of the session that is named; without a name it is refused.
pub proof fn law_history_needs_a_session(session_id: Option<String>, r: Result<String, HttpError>)
    requires
        call_ensures(http_api::history_session, (session_id,), r),
    ensures
        session_id matches Some(id) ==> (r matches Ok(s) && s@ == id@),
        session_id is None ==> (r matches Err(e) && refuses(
            e,
            400,
            "invalid_request"@,
            "missing session_id"@,
        )),
{
}

/// What cannot be read is refused as the caller's error, in the words of the reader.
pub proof fn law_unreadable_is_refused(
    error: &str,
    json: HttpError,
    body: HttpError,
    status: u16,
    kind: &str,
    any: HttpError,
)
    requires
        call_ensures(http_api::invalid_json, (error,), json),
        call_ensures(http_api::invalid_request_body, (error,), body),
        call_ensures(http_api::render_error, (status, kind, error), any),
    ensures
        refuses(json, 400, "invalid_json"@, error@),
        refuses(body, 400, "invalid_request_body"@, error@),
        refuses(any, status, kind@, error@),
{
}

/// An action is put among the arguments as a JSON string: into an object that has none, behind its
/// other fields; as the only field where there are no arguments; and nowhere else. What the caller
/// put there stays.
pub proof fn law_action_joins_the_arguments(args: JsonArgs, action: Option<String>, r: JsonArgs)
    requires
        call_ensures(http_api::merge_action_into_args, (args, action), r),
    ensures
        args matches JsonArgs::Other(t) ==> (r matches JsonArgs::Other(u) && u@ == t@),
        args is Null && action is None ==> r is Null,
        args is Null ==> (action matches Some(a) ==> (r matches JsonArgs::Object(fields)
            && fields@.len() == 1 && fields@[0].key@ == "action"@ && fields@[0].value@
            == encoding::json_string(a@))),
        args matches JsonArgs::Object(before) ==> (r matches JsonArgs::Object(after) && {
            let given = exists|i: int|
                0 <= i < before@.len() && (#[trigger] before@[i]).key@ == "action"@;
            &&& before@.len() <= after@.len()
            &&& forall|i: int|
                0 <= i < before@.len() ==> (#[trigger] after@[i]).key@ == before@[i].key@
                    && after@[i].value@ == before@[i].value@
            &&& given || action is None ==> after@.len() == before@.len()
            &&& !given && action is Some ==> after@.len() == before@.len() + 1
                && after@.last().key@ == "action"@ && after@.last().value@
                == encoding::json_string(action->Some_0@)
        }),
{
    if let JsonArgs::Object(before) = args {
        let bv = http_api::fields_view(before@);
        assert(bv.len() == before@.len());
        assert forall|i: int| 0 <= i < before@.len() implies #[trigger] bv[i] == (
            before@[i].key@,
            before@[i].value@,
        ) by {}
        if exists|i: int| 0 <= i < before@.len() && (#[trigger] before@[i]).key@ == "action"@ {
            let i = choose|i: int|
                0 <= i < before@.len() && (#[trigger] before@[i]).key@ == "action"@;
            assert(bv[i].0 == "action"@);
            assert(http_api::has_key(bv, "action"@));
        } else {
            assert(!http_api::has_key(bv, "action"@)) by {
                if http_api::has_key(bv, "action"@) {
                    let i = choose|i: int| 0 <= i < bv.len() && (#[trigger] bv[i]).0 == "action"@;
                    assert(before@[i].key@ == "action"@);
                }
            }
        }
        if let JsonArgs::Object(after) = r {
            let av = http_api::fields_view(after@);
            assert(av.len() == after@.len());
            assert forall|i: int| 0 <= i < after@.len() implies #[trigger] av[i] == (
                after@[i].key@,
                after@[i].value@,
            ) by {}
            assert forall|i: int| 0 <= i < before@.len() implies (#[trigger] after@[i]).key@
                == before@[i].key@ && after@[i].value@ == before@[i].value@ by {
                assert(av[i] == bv[i]);
            }
            if after@.len() > before@.len() {
                assert(av.last() == (after@.last().key@, after@.last().value@));
            }
        }
    }
    if args is Null {
        if let JsonArgs::Object(after) = r {
            let av = http_api::fields_view(after@);
            assert(av.len() == after@.len());
            if after@.len() > 0 {
                assert(av[0] == (after@[0].key@, after@[0].value@));
            }
        }
    }
}

/// A callback is acknowledged whatever its message is, and a text message is handled; what is no
/// message gets its own answer; one that is refused is told why.
pub proof fn law_callback_is_answered(
    outcome: Result<FeishuCallbackEvent, FeishuCallbackError>,
    r: CallbackReply,
)
    requires
        call_ensures(http_api::feishu_callback, (outcome,), r),
    ensures
        match outcome {
            Ok(FeishuCallbackEvent::Text(event)) => r matches CallbackReply::Body { body, message }
                && body@ == "{\"code\":0,\"msg\":\"ok\"}"@ && message == Some(event),
            Ok(FeishuCallbackEvent::Ignored { .. }) => r matches CallbackReply::Body { body, message }
                && body@ == "{\"code\":0,\"msg\":\"ok\"}"@ && message is None,
            Ok(FeishuCallbackEvent::Unreadable { .. }) => r matches CallbackReply::Body {
                body,
                message,
            } && body@ == "{\"code\":0,\"msg\":\"ok\"}"@ && message is None,
            Ok(FeishuCallbackEvent::NotMessage { response_body }) => r matches CallbackReply::Body {
                body,
                message,
            } && body@ == response_body@ && message is None,
            Err(error) => r matches CallbackReply::Refused(e) && match error.kind {
                FeishuCallbackErrorKind::BadRequest => refuses(
                    e,
                    400,
                    "feishu_callback_invalid"@,
                    error.message@,
                ),
                FeishuCallbackErrorKind::Unauthorized => refuses(
                    e,
                    401,
                    "feishu_callback_unauthorized"@,
                    error.message@,
                ),
            },
        },
{
}

/// The body of a callback is read as JSON, and an empty one as an empty object; what is no JSON is
/// refused.
pub proof fn law_callback_body_is_json(bytes: &[u8], r: Result<String, HttpError>)
    requires
        call_ensures(http_api::read_callback_body, (bytes,), r),
    ensures
        bytes@.len() == 0 ==> (r matches Ok(t) && t@ == seq!['{', '}']),
        bytes@.len() > 0 ==> match outside::json_of_bytes(bytes@) {
            Ok(t) => r matches Ok(s) && s@ == t,
            Err(why) => r matches Err(e) && refuses(e, 400, "invalid_json"@, why),
        },
{
    reveal_strlit("{}");
    assert("{}"@ =~= seq!['{', '}']);
}

/// Bytes are shown as the text that they are, or counted where they are none.
pub proof fn law_bytes_are_shown_as_text(
    bytes: &[u8],
    limit: usize,
    r: String,
    s: &str,
    preview: String,
)
    requires
        call_ensures(http_api::preview_bytes, (bytes, limit), r),
        valid_utf8(bytes@) ==> s@ == decode_utf8(bytes@),
        call_ensures(util::preview_text, (s, limit), preview),
    ensures
        valid_utf8(bytes@) ==> r@ == preview@,
        !valid_utf8(bytes@) ==> r@ == "<non-utf8:"@ + number::decimal(bytes@.len()) + " bytes>"@,
{
}

/// A Feishu message becomes a turn of its user in its session, which is kept.
pub proof fn law_message_becomes_a_turn(event: &InboundTextMessage, r: ChatTurnRequest)
    requires
        call_ensures(http_api::feishu_turn, (event,), r),
    ensures
        r.message@ == event.text@,
        r.session_id@ == event.session_id@,
        r.user_id@ == event.user_id@,
        r.system_prompt is None,
        r.max_iterations is None,
        r.persist,
{
}

/// Where the channel is on the page to connect it is shown, and where it is off the page that says so.
pub proof fn law_pages_are_told_apart(on: String, off: String)
    requires
        call_ensures(pages::weixin_connect_page_html, (), on),
        call_ensures(pages::weixin_connect_disabled_page_html, (), off),
    ensures
        on@ == pages::WEIXIN_CONNECT_PAGE@,
        off@ == pages::WEIXIN_CONNECT_DISABLED_PAGE@,
{
}

} // verus!
