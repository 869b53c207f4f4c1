//! What holds of messages: what is read from them, how streams are put together, and what the model
//! is shown.

use std::collections::VecDeque;
use vstd::prelude::*;
use vstd::string::*;

use crate::encoding;
use crate::engine::content;
use crate::engine::content::{Content, Part};
use crate::engine::stream;
use crate::engine::stream::{LlmChunk, LlmReply};
use crate::engine::util;
use crate::engine::util::FunctionCallEnvelope;
use crate::laws::turn::is_text;
use crate::number;
use crate::outside;
use crate::text;

verus! {

/// The text of a message is that of its text parts, one after the other: one more text part adds its
/// text at the end, any other part adds nothing, and a message without parts has none.
pub proof fn law_text_is_that_of_the_parts(
    front: &Vec<Part>,
    all: &Vec<Part>,
    part: Part,
    a: String,
    b: String,
)
    requires
        call_ensures(util::joined_text, (front,), a),
        call_ensures(util::joined_text, (all,), b),
        content::parts_view(all@) == content::parts_view(front@).push(part@),
    ensures
        part matches Part::Text { text } ==> b@ == a@ + text@,
        !(part is Text) ==> b@ == a@,
        front@.len() == 0 ==> a@.len() == 0,
{
    let fv = content::parts_view(front@);
    assert(fv.push(part@).drop_last() =~= fv);
    assert(fv.push(part@).last() == part@);
    assert(a@ + Seq::<char>::empty() =~= a@);
}

/// What is read from a message is all of its text, trimmed.
pub proof fn law_read_text_is_all_of_it(m: &Content, whole: String, s: &str, t: &str, r: String)
    requires
        call_ensures(util::extract_text, (m,), r),
        call_ensures(util::joined_text, (&m.parts,), whole),
        s@ == whole@,
        call_ensures(text::trim, (s,), t),
    ensures
        r@ == t@,
{
}

/// The calls of a message are those of its parts, in order: one more part that asks for a call adds
/// that call at the end, under its own identifier or a new one; any other part adds none.
pub proof fn law_calls_are_those_of_the_parts(
    front: &Content,
    all: &Content,
    part: Part,
    uuids: &Vec<[u8; 16]>,
    a: Vec<FunctionCallEnvelope>,
    b: Vec<FunctionCallEnvelope>,
)
    requires
        call_ensures(util::extract_function_calls, (front, uuids), a),
        call_ensures(util::extract_function_calls, (all, uuids), b),
        all@.parts == front@.parts.push(part@),
    ensures
        front.parts@.len() == 0 ==> a@.len() == 0,
        !(part is FunctionCall) ==> b@.len() == a@.len(),
        part is FunctionCall ==> b@.len() == a@.len() + 1,
        forall|i: int| 0 <= i < a@.len() ==> (#[trigger] b@[i])@ == a@[i]@,
        part matches Part::FunctionCall { name, args, id } ==> {
            let call = b@[a@.len() as int];
            &&& call.name@ == name@
            &&& call.args@ == args@
            &&& id matches Some(given) ==> call.function_call_id@ == given@
            &&& id is None ==> call.function_call_id@ == "call-"@ + encoding::uuid_text(
                uuids@[front.parts@.len() as int]@,
            ) + "-"@ + number::decimal(front.parts@.len())
        },
{
    let fv = front@.parts;
    assert(fv.push(part@).drop_last() =~= fv);
    assert(fv.push(part@).last() == part@);
    let av = util::calls_view(a@);
    let bv = util::calls_view(b@);
    assert(av.len() == a@.len() && bv.len() == b@.len());
    assert(av == util::calls_of(fv, uuids@));
    assert forall|i: int| 0 <= i < a@.len() implies (#[trigger] b@[i])@ == a@[i]@ by {
        assert(bv[i] == b@[i]@ && av[i] == a@[i]@);
    }
    if part is FunctionCall {
        assert(bv[a@.len() as int] == b@[a@.len() as int]@);
    }
}

/// A call is told from another by its name and by what its arguments stand for.
pub proof fn law_signature_names_the_call(name: &str, args: &str, r: String, line: String)
    requires
        call_ensures(util::tool_call_signature, (name, args), r),
        call_ensures(util::json_text, (args,), line),
    ensures
        r@ == name@ + seq![':'] + line@,
        outside::compact_json(args@) matches Some(t) ==> line@ == t,
        outside::compact_json(args@) is None ==> line@ == "<invalid-json>"@,
        r@ == util::signature_of(name@, args@),
{
    reveal_strlit(":");
    assert(":"@ =~= seq![':']);
}

/// A preview is the trimmed text with its line feeds written out: all of it where it is no longer
/// than allowed, else its beginning, as much as allowed, and three dots.
pub proof fn law_preview_shows_the_beginning(
    input: &str,
    limit: usize,
    r: String,
    core: &str,
    feed: &str,
    mark: &str,
    line: String,
)
    requires
        call_ensures(util::preview_text, (input, limit), r),
        call_ensures(text::trim, (input,), core),
        feed@ == seq!['\n'],
        mark@ == seq!['\\', 'n'],
        call_ensures(text::replace, (core, feed, mark), line),
    ensures
        line@.len() <= limit ==> r@ == line@,
        line@.len() > limit ==> r@ == line@.take(limit as int) + seq!['.', '.', '.'],
{
    reveal_strlit("\n");
    reveal_strlit("\\n");
    reveal_strlit("...");
    assert("\n"@ =~= seq!['\n']);
    assert("\\n"@ =~= seq!['\\', 'n']);
    assert("..."@ =~= seq!['.', '.', '.']);
}

/// A preview of a JSON value is that of its compact form.
pub proof fn law_json_preview_is_of_the_compact_form(
    value: &str,
    limit: usize,
    r: String,
    line: String,
    s: &str,
    p: String,
)
    requires
        call_ensures(util::preview_json, (value, limit), r),
        call_ensures(util::json_text, (value,), line),
        s@ == line@,
        call_ensures(util::preview_text, (s, limit), p),
    ensures
        r@ == p@,
{
}

/// A call that is asked for in the model's name carries its identifier, name and arguments.
pub proof fn law_call_message_carries_the_call(call: &FunctionCallEnvelope, r: Content)
    requires
        call_ensures(util::build_model_tool_call_content, (call,), r),
    ensures
        r.role@ == "model"@,
        r.parts@.len() == 1,
        r.parts@[0] matches Part::FunctionCall { name, args, id } && {
            &&& name@ == call.name@
            &&& args@ == call.args@
            &&& id matches Some(given) && given@ == call.function_call_id@
        },
{
    assert(r@.parts.len() == r.parts@.len());
    assert(r@.parts[0] == r.parts@[0]@);
}

/// One more streamed part: text that follows text is joined to its end, anything else stands alone;
/// nothing before is touched. No part changes nothing.
pub proof fn law_streamed_part_is_added(target: &mut Vec<Part>, incoming: &Vec<Part>)
    requires
        call_ensures(util::append_stream_parts, (target, incoming), ()),
        incoming@.len() <= 1,
    ensures
        ({
            let before = content::parts_view(old(target)@);
            let after = content::parts_view(final(target)@);
            let n = before.len() as int;
            &&& incoming@.len() == 0 ==> after == before
            &&& incoming@.len() == 1 ==> {
                if n > 0 && old(target)@[n - 1] is Text && incoming@[0] is Text {
                    &&& after.len() == n
                    &&& after.take(n - 1) == before.take(n - 1)
                    &&& final(target)@[n - 1] matches Part::Text { text } && text@ == old(
                        target,
                    )@[n - 1]->Text_text@ + incoming@[0]->Text_text@
                } else {
                    after == before.push(incoming@[0]@)
                }
            }
        }),
{
    let before = content::parts_view(old(target)@);
    let after = content::parts_view(final(target)@);
    let iv = content::parts_view(incoming@);
    let n = before.len() as int;
    if incoming@.len() == 1 {
        assert(iv.drop_last() =~= Seq::empty());
        assert(iv.last() == incoming@[0]@);
        assert(util::merged(before, iv.drop_last()) == before);
        if n > 0 {
            assert(before.last() == old(target)@[n - 1]@);
        }
        if n > 0 && old(target)@[n - 1] is Text && incoming@[0] is Text {
            assert(after.len() == n && final(target)@.len() == n);
            assert(after.take(n - 1) =~= before.take(n - 1));
            assert(after[n - 1] == final(target)@[n - 1]@);
        }
    }
}

/// The parts of a reply so far.
pub open spec fn parts_so_far(r: Result<LlmReply, String>) -> Seq<content::PartView> {
    match r {
        Ok(reply) => match reply.content {
            Some(m) => m@.parts,
            None => Seq::empty(),
        },
        Err(_) => Seq::empty(),
    }
}

/// One more chunk of a stream: its parts are added to those before, its finish reason counts, and its
/// usage record only where none came before.
pub proof fn law_chunk_is_added(
    front: &Vec<Result<LlmChunk, String>>,
    all: &Vec<Result<LlmChunk, String>>,
    chunk: LlmChunk,
    a: Result<LlmReply, String>,
    b: Result<LlmReply, String>,
)
    requires
        call_ensures(stream::collect_llm_response, (front,), a),
        call_ensures(stream::collect_llm_response, (all,), b),
        all@ == front@.push(Ok(chunk)),
        front@.len() == 0 || a is Ok,
    ensures
        b is Ok,
        parts_so_far(b) == util::merged(
            parts_so_far(a),
            match chunk.content {
                Some(m) => m@.parts,
                None => Seq::empty(),
            },
        ),
        b->Ok_0.content matches Some(m) ==> m.role@ == "model"@ && m.parts@.len() > 0,
        chunk.finish_reason matches Some(f) ==> b->Ok_0.finish_reason == Some(f),
        chunk.finish_reason is None && a is Ok ==> b->Ok_0.finish_reason == a->Ok_0.finish_reason,
        chunk.finish_reason is None && a is Err ==> b->Ok_0.finish_reason is None,
        a is Ok && a->Ok_0.usage_metadata is Some ==> text::opt_view(b->Ok_0.usage_metadata)
            == text::opt_view(a->Ok_0.usage_metadata),
        a is Err || a->Ok_0.usage_metadata is None ==> text::opt_view(b->Ok_0.usage_metadata)
            == text::opt_view(chunk.usage_metadata),
{
    let fi = front@;
    assert(fi.push(Ok(chunk)).drop_last() =~= fi);
    assert(all@.last() == Ok::<LlmChunk, String>(chunk));
    assert forall|i: int| 0 <= i < all@.len() implies (#[trigger] all@[i]) is Ok by {
        if i < fi.len() {
            assert(all@[i] == fi[i]);
        }
    }
    if b is Err {
        let q = choose|q: int|
            #[trigger] stream::is_first_failure(all@, q) && b->Err_0@ == all@[q]->Err_0@;
        assert(all@[q] is Ok);
    }
    if a is Err {
        assert(fi =~= Seq::empty());
        assert(stream::last_finish(fi) is None);
        assert(stream::first_usage(fi) is None);
    }
    assert(stream::stream_parts(fi) =~= parts_so_far(a));
    assert(stream::stream_parts(all@) =~= parts_so_far(b));
    if let Ok(reply) = b {
        if let Some(m) = reply.content {
            assert(m@.parts.len() == m.parts@.len());
        }
    }
}

/// A stream fails with its first failure, in its own words; one without any chunk fails too.
pub proof fn law_first_failure_ends_a_stream(
    items: &Vec<Result<LlmChunk, String>>,
    r: Result<LlmReply, String>,
    k: int,
)
    requires
        call_ensures(stream::collect_llm_response, (items,), r),
    ensures
        items@.len() == 0 ==> (r matches Err(m) && m@ == "llm returned an empty response stream"@),
        0 <= k < items@.len() && items@[k] is Err && (forall|i: int|
            0 <= i < k ==> (#[trigger] items@[i]) is Ok) ==> (r matches Err(m) && m@
            == items@[k]->Err_0@),
        items@.len() > 0 && (forall|i: int| 0 <= i < items@.len() ==> (#[trigger] items@[i]) is Ok)
            ==> r is Ok,
{
    if 0 <= k < items@.len() && items@[k] is Err && (forall|i: int|
        0 <= i < k ==> (#[trigger] items@[i]) is Ok) {
        assert(r is Err);
        let q = choose|q: int|
            #[trigger] stream::is_first_failure(items@, q) && r->Err_0@ == items@[q]->Err_0@;
        assert(q == k);
    }
}

/// A final answer is all the text of the stream, trimmed, in the model's name; there is none where
/// that is nothing. Failed chunks are passed over.
pub proof fn law_final_answer_is_the_streamed_text(
    items: &Vec<Result<LlmChunk, String>>,
    r: Option<Content>,
)
    requires
        call_ensures(stream::synthesize_final_answer, (items,), r),
    ensures
        r is None <==> text::is_blank(stream::streamed_text(items@)),
        r matches Some(m) ==> is_text(
            m,
            "model"@,
            text::trimmed(stream::streamed_text(items@)),
        ),
{
    stream::law_stream_text(items@);
    text::lemma_trimmed_empty(stream::streamed_text(items@));
    if let Some(m) = r {
        assert(m@.parts.len() == m.parts@.len());
        assert(m@.parts[0] == m.parts@[0]@);
    }
}

/// The streamed text grows by the text of each chunk, and a failed chunk adds none.
pub proof fn law_streamed_text_grows(
    front: Seq<Result<LlmChunk, String>>,
    item: Result<LlmChunk, String>,
    parts: &Vec<Part>,
    said: String,
)
    requires
        call_ensures(util::joined_text, (parts,), said),
    ensures
        item is Err ==> stream::streamed_text(front.push(item)) == stream::streamed_text(front),
        item matches Ok(chunk) ==> match chunk.content {
            None => stream::streamed_text(front.push(item)) == stream::streamed_text(front),
            Some(m) => content::parts_view(parts@) == m@.parts ==> stream::streamed_text(
                front.push(item),
            ) == stream::streamed_text(front) + said@,
        },
        stream::streamed_text(Seq::empty()) == Seq::<char>::empty(),
{
    assert(front.push(item).drop_last() =~= front);
    assert(front.push(item).last() == item);
    assert(stream::streamed_text(front) + Seq::<char>::empty() =~= stream::streamed_text(front));
}

/// A final answer is asked for with all that was said, unchanged, and one more message of the user.
pub proof fn law_final_answer_is_asked_with_everything(transcript: &Vec<Content>, r: Vec<Content>)
    requires
        call_ensures(stream::synthesis_messages, (transcript,), r),
    ensures
        r@.len() == transcript@.len() + 1,
        forall|i: int| 0 <= i < transcript@.len() ==> (#[trigger] r@[i])@ == transcript@[i]@,
        is_text(
            r@.last(),
            "user"@,
            "Based on all the steps and tool results above, provide a clear and concise final answer to the original user request. Use the same language the user used. If you obtained valid data, present it directly. If all attempts failed, explain what went wrong and suggest alternatives. Do not mention iteration limits, internal engine details, or tool names."@,
        ),
{
    let rv = content::contents_view(r@);
    let tv = content::contents_view(transcript@);
    assert(rv.len() == r@.len());
    assert forall|i: int| 0 <= i < transcript@.len() implies (#[trigger] r@[i])@ == transcript@[i]@ by {
        assert(rv[i] == r@[i]@ && tv[i] == transcript@[i]@);
    }
    assert(rv.last() == r@.last()@);
    assert(r@.last()@.parts.len() == r@.last().parts@.len());
    assert(r@.last()@.parts[0] == r@.last().parts@[0]@);
}

/// Whether a role is that of a tool's answer.
pub open spec fn answers_a_call(m: Content) -> bool {
    m.role@ == "tool"@ || m.role@ == "function"@
}

/// The model is shown the whole transcript where it fits, and nothing where nothing is allowed.
pub proof fn law_window_is_whole_where_it_fits(
    transcript: &VecDeque<Content>,
    max_messages: usize,
    r: Vec<Content>,
)
    requires
        call_ensures(util::build_llm_context_window, (transcript, max_messages), r),
    ensures
        max_messages == 0 ==> r@.len() == 0,
        0 < transcript@.len() <= max_messages ==> content::contents_view(r@)
            == content::contents_view(transcript@),
{
    assert(content::contents_view(r@).len() == r@.len());
}

/// Whether a list of messages is the end of a longer one, from place `from` on as far as it can be:
/// only answers to calls that were cut off are left out in front of it.
pub open spec fn is_clean_end(ts: Seq<Content>, from: int, end: Seq<content::ContentView>) -> bool {
    let n = ts.len() as int;
    let kept = end.len() as int;
    &&& kept <= n - from
    &&& end == content::contents_view(ts).skip(n - kept)
    &&& forall|i: int| from <= i < n - kept ==> answers_a_call(#[trigger] ts[i])
    &&& kept > 0 ==> !answers_a_call(ts[n - kept])
}

proof fn lemma_clean_end(ts: Seq<Content>, from: int)
    requires
        0 <= from <= ts.len(),
    ensures
        is_clean_end(
            ts,
            from,
            util::without_leading_answers(content::contents_view(ts).skip(from)),
        ),
{
    let n = ts.len() as int;
    let tv = content::contents_view(ts);
    let tail = tv.skip(from);
    lemma_answers_dropped(tail);
    let left = util::without_leading_answers(tail);
    let kept = left.len() as int;
    assert(left =~= tv.skip(n - kept));
    assert forall|i: int| from <= i < n - kept implies answers_a_call(#[trigger] ts[i]) by {
        assert(tail[i - from] == ts[i]@);
    }
    if kept > 0 {
        assert(left[0] == ts[n - kept]@);
    }
}

/// Where a transcript that begins with a system message does not fit, the model is shown that message
/// and the latest ones, as many as fit; only answers to calls that were cut off are left out in front
/// of them.
pub proof fn law_window_keeps_the_system_message(
    transcript: &VecDeque<Content>,
    max_messages: usize,
    r: Vec<Content>,
)
    requires
        call_ensures(util::build_llm_context_window, (transcript, max_messages), r),
        0 < max_messages < transcript@.len(),
        transcript@[0].role@ == "system"@,
    ensures
        r@.len() > 0,
        content::contents_view(r@)[0] == transcript@[0]@,
        is_clean_end(
            transcript@,
            transcript@.len() - (max_messages - 1),
            content::contents_view(r@).skip(1),
        ),
{
    let n = transcript@.len() as int;
    let ts = content::contents_view(transcript@);
    let rs = content::contents_view(r@);
    assert(rs.len() == r@.len());
    assert(ts[0] == transcript@[0]@);
    let from = n - (max_messages - 1);
    lemma_clean_end(transcript@, from);
    let tail = ts.skip(from);
    let cut = seq![ts[0]] + tail;
    assert(cut.skip(1) =~= tail);
    assert(rs == seq![ts[0]] + util::without_leading_answers(tail));
    assert(rs.skip(1) =~= util::without_leading_answers(tail));
}

/// Where a transcript without a system message does not fit, the model is shown the latest messages,
/// as many as fit; only answers to calls that were cut off are left out in front of them.
pub proof fn law_window_holds_the_latest(
    transcript: &VecDeque<Content>,
    max_messages: usize,
    r: Vec<Content>,
)
    requires
        call_ensures(util::build_llm_context_window, (transcript, max_messages), r),
        0 < max_messages < transcript@.len(),
        transcript@[0].role@ != "system"@,
        transcript@[transcript@.len() - max_messages].role@ != "system"@,
    ensures
        is_clean_end(
            transcript@,
            transcript@.len() - max_messages,
            content::contents_view(r@),
        ),
{
    let n = transcript@.len() as int;
    let ts = content::contents_view(transcript@);
    assert(ts[0] == transcript@[0]@);
    let from = n - max_messages;
    lemma_clean_end(transcript@, from);
    let tail = ts.skip(from);
    assert(tail[0] == transcript@[from]@);
}

proof fn lemma_answers_dropped(ms: Seq<content::ContentView>)
    ensures
        ({
            let left = util::without_leading_answers(ms);
            &&& left.len() <= ms.len()
            &&& left == ms.skip(ms.len() - left.len())
            &&& forall|i: int|
                0 <= i < ms.len() - left.len() ==> util::is_tool_role((#[trigger] ms[i]).role)
            &&& left.len() > 0 ==> !util::is_tool_role(left[0].role)
        }),
    decreases ms.len(),
{
    let left = util::without_leading_answers(ms);
    if ms.len() > 0 && util::is_tool_role(ms[0].role) {
        let rest = ms.skip(1);
        lemma_answers_dropped(rest);
        assert(rest.skip(rest.len() - left.len()) =~= ms.skip(ms.len() - left.len()));
        assert forall|i: int| 0 <= i < ms.len() - left.len() implies util::is_tool_role(
            (#[trigger] ms[i]).role,
        ) by {
            if i > 0 {
                assert(rest[i - 1] == ms[i]);
            }
        }
    } else {
        assert(ms.skip(0) =~= ms);
    }
}

/// A message of one text holds that text, in the name of the one who speaks.
pub proof fn law_text_message_holds_the_text(role: &str, said: &str, r: Content)
    requires
        call_ensures(Content::text, (role, said), r),
    ensures
        is_text(r, role@, said@),
{
    assert(r@.parts.len() == r.parts@.len());
    assert(r@.parts[0] == r.parts@[0]@);
}

} // verus!
