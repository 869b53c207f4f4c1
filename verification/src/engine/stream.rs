//! What comes back from the model: streamed chunks put together into one reply.

use vstd::prelude::*;
use vstd::string::*;

use crate::engine::content;
use crate::engine::content::{Content, ContentView, Part, PartView};
use crate::engine::util;
use crate::text;

verus! {

/// Why the model stopped.
#[derive(Debug, Clone, Copy, PartialEq, Eq, Structural)]
pub enum FinishReason {
    Stop,
    MaxTokens,
    Safety,
    Recitation,
    Other,
}

/// The name of a finish reason.
pub open spec fn finish_reason_text(reason: FinishReason) -> Seq<char> {
    match reason {
        FinishReason::Stop => "stop"@,
        FinishReason::MaxTokens => "max_tokens"@,
        FinishReason::Safety => "safety"@,
        FinishReason::Recitation => "recitation"@,
        FinishReason::Other => "other"@,
    }
}

/// Names a finish reason.
pub fn finish_reason_to_string(reason: &FinishReason) -> (r: String)
    ensures
        r@ == finish_reason_text(*reason),
{
    match reason {
        FinishReason::Stop => "stop".to_owned(),
        FinishReason::MaxTokens => "max_tokens".to_owned(),
        FinishReason::Safety => "safety".to_owned(),
        FinishReason::Recitation => "recitation".to_owned(),
        FinishReason::Other => "other".to_owned(),
    }
}

/// One chunk of a streamed reply; the usage record is JSON text.
#[derive(Debug)]
pub struct LlmChunk {
    pub content: Option<Content>,
    pub usage_metadata: Option<String>,
    pub finish_reason: Option<FinishReason>,
}

/// A whole reply.
#[derive(Debug)]
pub struct LlmReply {
    pub content: Option<Content>,
    pub usage_metadata: Option<String>,
    pub finish_reason: Option<FinishReason>,
}

/// The contents of an optional message.
pub open spec fn opt_content(c: Option<Content>) -> Option<ContentView> {
    match c {
        Some(m) => Some(m@),
        None => None,
    }
}

/// The parts that one stream item brings; a failed item brings none.
pub open spec fn item_parts(item: Result<LlmChunk, String>) -> Seq<PartView> {
    match item {
        Ok(chunk) => match chunk.content {
            Some(m) => m@.parts,
            None => Seq::empty(),
        },
        Err(_) => Seq::empty(),
    }
}

/// The parts of a stream, put together.
pub open spec fn stream_parts(items: Seq<Result<LlmChunk, String>>) -> Seq<PartView>
    decreases items.len(),
{
    if items.len() == 0 {
        Seq::empty()
    } else {
        util::merged(stream_parts(items.drop_last()), item_parts(items.last()))
    }
}

/// The first usage record of a stream.
pub open spec fn first_usage(items: Seq<Result<LlmChunk, String>>) -> Option<Seq<char>>
    decreases items.len(),
{
    if items.len() == 0 {
        None
    } else if first_usage(items.drop_last()) is Some {
        first_usage(items.drop_last())
    } else {
        match items.last() {
            Ok(chunk) => text::opt_view(chunk.usage_metadata),
            Err(_) => None,
        }
    }
}

/// The last finish reason of a stream.
pub open spec fn last_finish(items: Seq<Result<LlmChunk, String>>) -> Option<FinishReason>
    decreases items.len(),
{
    if items.len() == 0 {
        None
    } else {
        match items.last() {
            Ok(chunk) => match chunk.finish_reason {
                Some(reason) => Some(reason),
                None => last_finish(items.drop_last()),
            },
            Err(_) => last_finish(items.drop_last()),
        }
    }
}

/// The first failure of a stream.
pub open spec fn is_first_failure(items: Seq<Result<LlmChunk, String>>, k: int) -> bool {
    &&& 0 <= k < items.len()
    &&& items[k] is Err
    &&& forall|i: int| 0 <= i < k ==> (#[trigger] items[i]) is Ok
}

/// Whether a reply is what a stream without failures amounts to.
pub open spec fn reply_of(items: Seq<Result<LlmChunk, String>>, reply: LlmReply) -> bool {
    &&& opt_content(reply.content) == if stream_parts(items).len() == 0 {
        None
    } else {
        Some(ContentView { role: "model"@, parts: stream_parts(items) })
    }
    &&& text::opt_view(reply.usage_metadata) == first_usage(items)
    &&& reply.finish_reason == last_finish(items)
}

/// Puts a streamed reply together. The first failure ends it; a stream without any chunk is an
/// error.
pub fn collect_llm_response(items: &Vec<Result<LlmChunk, String>>) -> (r: Result<LlmReply, String>)
    ensures
        match r {
            Ok(reply) => {
                &&& items@.len() > 0
                &&& forall|i: int| 0 <= i < items@.len() ==> (#[trigger] items@[i]) is Ok
                &&& reply_of(items@, reply)
            },
            Err(message) => if items@.len() == 0 {
                message@ == "llm returned an empty response stream"@
            } else {
                exists|k: int|
                    #[trigger] is_first_failure(items@, k) && message@ == items@[k]->Err_0@
            },
        },
{
    let mut parts: Vec<Part> = Vec::new();
    let mut usage: Option<String> = None;
    let mut finish: Option<FinishReason> = None;
    let mut k: usize = 0;
    proof {
        assert(items@.take(0) =~= Seq::empty());
        assert(content::parts_view(parts@) =~= Seq::empty());
    }
    while k < items.len()
        invariant
            k <= items@.len(),
            forall|i: int| 0 <= i < k ==> (#[trigger] items@[i]) is Ok,
            content::parts_view(parts@) == stream_parts(items@.take(k as int)),
            text::opt_view(usage) == first_usage(items@.take(k as int)),
            finish == last_finish(items@.take(k as int)),
        decreases items@.len() - k,
    {
        assert(items@.take(k + 1).drop_last() =~= items@.take(k as int));
        assert(items@.take(k + 1).last() == items@[k as int]);
        match &items[k] {
            Err(message) => {
                assert(is_first_failure(items@, k as int));
                return Err(message.clone());
            },
            Ok(chunk) => {
                if let Some(message) = &chunk.content {
                    util::append_stream_parts(&mut parts, &message.parts);
                }
                if usage.is_none() {
                    usage = text::copy_opt(&chunk.usage_metadata);
                }
                if let Some(reason) = chunk.finish_reason {
                    finish = Some(reason);
                }
            },
        }
        k = k + 1;
    }
    assert(items@.take(k as int) =~= items@);
    if items.len() == 0 {
        return Err("llm returned an empty response stream".to_owned());
    }
    let content = if parts.len() == 0 {
        None
    } else {
        Some(Content { role: "model".to_owned(), parts })
    };
    Ok(LlmReply { content, usage_metadata: usage, finish_reason: finish })
}

/// The text of a stream is the text of its chunks, one after the other, however it was cut.
pub proof fn law_stream_text(items: Seq<Result<LlmChunk, String>>)
    ensures
        util::text_of(stream_parts(items)) == streamed_text(items),
    decreases items.len(),
{
    if items.len() > 0 {
        law_stream_text(items.drop_last());
        util::law_merging_keeps_text(stream_parts(items.drop_last()), item_parts(items.last()));
    }
}

/// The texts of the chunks, one after the other.
pub open spec fn streamed_text(items: Seq<Result<LlmChunk, String>>) -> Seq<char>
    decreases items.len(),
{
    if items.len() == 0 {
        Seq::empty()
    } else {
        streamed_text(items.drop_last()) + util::text_of(item_parts(items.last()))
    }
}

/// What the model is asked for when the turn ends without an answer.
pub open spec fn synthesis_prompt() -> Seq<char> {
    "Based on all the steps and tool results above, provide a clear and concise final answer to the original user request. Use the same language the user used. If you obtained valid data, present it directly. If all attempts failed, explain what went wrong and suggest alternatives. Do not mention iteration limits, internal engine details, or tool names."@
}

/// The messages by which a final answer is asked for: the transcript and the request.
pub fn synthesis_messages(transcript: &Vec<Content>) -> (r: Vec<Content>)
    ensures
        content::contents_view(r@) == content::contents_view(transcript@).push(
            content::text_message("user"@, synthesis_prompt()),
        ),
{
    let mut out: Vec<Content> = Vec::new();
    let ghost all = content::contents_view(transcript@);
    let mut i: usize = 0;
    while i < transcript.len()
        invariant
            i <= transcript@.len(),
            all == content::contents_view(transcript@),
            out@.len() == i,
            forall|j: int| 0 <= j < i ==> (#[trigger] out@[j])@ == all[j],
        decreases transcript@.len() - i,
    {
        out.push(transcript[i].clone());
        i = i + 1;
    }
    out.push(
        Content::text(
            "user",
            "Based on all the steps and tool results above, provide a clear and concise final answer to the original user request. Use the same language the user used. If you obtained valid data, present it directly. If all attempts failed, explain what went wrong and suggest alternatives. Do not mention iteration limits, internal engine details, or tool names.",
        ),
    );
    assert(content::contents_view(out@) =~= all.push(
        content::text_message("user"@, synthesis_prompt()),
    ));
    out
}

/// The final answer that a stream gives: its trimmed text, where there is any.
pub open spec fn synthesis_of(items: Seq<Result<LlmChunk, String>>) -> Option<ContentView> {
    let answer = text::trimmed(util::text_of(stream_parts(items)));
    if answer.len() == 0 {
        None
    } else {
        Some(content::text_message("model"@, answer))
    }
}

/// Reads the final answer from a stream. Failed items are passed over.
pub fn synthesize_final_answer(items: &Vec<Result<LlmChunk, String>>) -> (r: Option<Content>)
    ensures
        opt_content(r) == synthesis_of(items@),
{
    let mut parts: Vec<Part> = Vec::new();
    let mut k: usize = 0;
    proof {
        assert(items@.take(0) =~= Seq::empty());
        assert(content::parts_view(parts@) =~= Seq::empty());
    }
    while k < items.len()
        invariant
            k <= items@.len(),
            content::parts_view(parts@) == stream_parts(items@.take(k as int)),
        decreases items@.len() - k,
    {
        assert(items@.take(k + 1).drop_last() =~= items@.take(k as int));
        assert(items@.take(k + 1).last() == items@[k as int]);
        if let Ok(chunk) = &items[k] {
            if let Some(message) = &chunk.content {
                util::append_stream_parts(&mut parts, &message.parts);
            }
        }
        k = k + 1;
    }
    assert(items@.take(k as int) =~= items@);
    let all = util::joined_text(&parts);
    let answer = text::trim(all.as_str());
    if answer.unicode_len() == 0 {
        None
    } else {
        Some(Content::text("model", answer))
    }
}

} // verus!
