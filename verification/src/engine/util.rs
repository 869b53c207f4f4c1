//! Helpers of the engine: previews, call signatures, text and call extraction, stream merging and
//! the context window.

use vstd::prelude::*;
use vstd::string::*;

use crate::encoding;
use crate::engine::content;
use crate::engine::content::{Content, ContentView, Part, PartView};
use crate::number;
use crate::outside;
use crate::text;
use std::collections::VecDeque;

verus! {

/// A text on one line: trimmed, with every line feed written out, and cut after `limit` characters.
pub open spec fn preview_of(s: Seq<char>, limit: nat) -> Seq<char> {
    let line = text::replaced(text::trimmed(s), "\n"@, "\\n"@);
    if line.len() > limit {
        line.take(limit as int) + "..."@
    } else {
        line
    }
}

/// A preview of a text for traces and logs.
pub fn preview_text(input: &str, limit: usize) -> (r: String)
    ensures
        r@ == preview_of(input@, limit as nat),
{
    proof {
        reveal_strlit("\n");
    }
    let line = text::replace(text::trim(input), "\n", "\\n");
    if line.as_str().unicode_len() > limit {
        text::cat(text::take_chars(line.as_str(), limit).as_str(), "...")
    } else {
        line
    }
}

proof fn lemma_no_line_feed(s: Seq<char>)
    ensures
        forall|i: int|
            0 <= i < text::replaced(s, "\n"@, "\\n"@).len() ==> #[trigger] text::replaced(
                s,
                "\n"@,
                "\\n"@,
            )[i] != '\n',
    decreases s.len(),
{
    reveal_strlit("\n");
    reveal_strlit("\\n");
    if s.len() > 0 {
        let all = text::replaced(s, "\n"@, "\\n"@);
        let rest = text::replaced(s.skip(1), "\n"@, "\\n"@);
        lemma_no_line_feed(s.skip(1));
        let head = if s[0] == '\n' {
            assert(s.subrange(0, 1) =~= "\n"@);
            "\\n"@
        } else {
            assert(s.subrange(0, 1)[0] == s[0]);
            assert("\n"@[0] == '\n');
            seq![s[0]]
        };
        assert(all == head + rest);
        assert(head[0] != '\n' && head[head.len() - 1] != '\n' && head.len() <= 2);
        assert forall|i: int| 0 <= i < all.len() implies #[trigger] all[i] != '\n' by {
            if i >= head.len() {
                assert(all[i] == rest[i - head.len()]);
            }
        }
    }
}

/// A preview stands on one line and is hardly longer than asked for.
pub proof fn law_preview_is_one_short_line(s: Seq<char>, limit: nat)
    ensures
        preview_of(s, limit).len() <= limit + 3,
        forall|i: int|
            0 <= i < preview_of(s, limit).len() ==> #[trigger] preview_of(s, limit)[i] != '\n',
{
    lemma_no_line_feed(text::trimmed(s));
    reveal_strlit("...");
}

/// The compact form of a JSON text, or a marker where the text is no JSON.
pub open spec fn json_line(value: Seq<char>) -> Seq<char> {
    match outside::compact_json(value) {
        Some(t) => t,
        None => "<invalid-json>"@,
    }
}

/// Writes a JSON text in its compact form.
pub fn json_text(value: &str) -> (r: String)
    ensures
        r@ == json_line(value@),
{
    match outside::json_compact(value) {
        Some(t) => t,
        None => "<invalid-json>".to_owned(),
    }
}

/// A preview of a JSON value for traces and logs.
pub fn preview_json(value: &str, limit: usize) -> (r: String)
    ensures
        r@ == preview_of(json_line(value@), limit as nat),
{
    preview_text(json_text(value).as_str(), limit)
}

/// What tells one tool call from another: the name and the arguments.
pub open spec fn signature_of(name: Seq<char>, args: Seq<char>) -> Seq<char> {
    name + ":"@ + json_line(args)
}

/// The signature of a call, for the detection of repeated calls.
pub fn tool_call_signature(name: &str, args: &str) -> (r: String)
    ensures
        r@ == signature_of(name@, args@),
{
    text::cat3(name, ":", json_text(args).as_str())
}

/// Arguments that stand for one JSON value give one signature, however they are written.
pub proof fn law_signature_is_stable(name: Seq<char>, a: Seq<char>, b: Seq<char>)
    requires
        outside::compact_json(a) == outside::compact_json(b),
    ensures
        signature_of(name, a) == signature_of(name, b),
{
}

/// The text parts, one after the other.
pub open spec fn text_of(parts: Seq<PartView>) -> Seq<char>
    decreases parts.len(),
{
    if parts.len() == 0 {
        Seq::empty()
    } else {
        text_of(parts.drop_last()) + match parts.last() {
            PartView::Text { text } => text,
            _ => Seq::empty(),
        }
    }
}

/// The text parts of a list of parts, joined without anything between them.
pub fn joined_text(parts: &Vec<Part>) -> (r: String)
    ensures
        r@ == text_of(content::parts_view(parts@)),
{
    let mut out = String::new();
    let ghost all = content::parts_view(parts@);
    let mut i: usize = 0;
    while i < parts.len()
        invariant
            i <= parts.len(),
            all == content::parts_view(parts@),
            out@ == text_of(all.take(i as int)),
        decreases parts.len() - i,
    {
        assert(all.take(i + 1).drop_last() =~= all.take(i as int));
        if let Part::Text { text } = &parts[i] {
            out.append(text.as_str());
        }
        i = i + 1;
    }
    assert(all.take(i as int) =~= all);
    out
}

/// The trimmed text of a message.
pub fn extract_text(content: &Content) -> (r: String)
    ensures
        r@ == text::trimmed(text_of(content@.parts)),
{
    let all = joined_text(&content.parts);
    text::trim(all.as_str()).to_owned()
}

/// A call that the model asks for.
#[derive(Debug)]
pub struct FunctionCallEnvelope {
    pub function_call_id: String,
    pub name: String,
    pub args: String,
}

/// The contents of a call.
pub struct CallView {
    pub function_call_id: Seq<char>,
    pub name: Seq<char>,
    pub args: Seq<char>,
}

impl View for FunctionCallEnvelope {
    type V = CallView;

    open spec fn view(&self) -> CallView {
        CallView {
            function_call_id: self.function_call_id@,
            name: self.name@,
            args: self.args@,
        }
    }
}

impl Clone for FunctionCallEnvelope {
    fn clone(&self) -> (r: Self)
        ensures
            r == *self,
    {
        FunctionCallEnvelope {
            function_call_id: self.function_call_id.clone(),
            name: self.name.clone(),
            args: self.args.clone(),
        }
    }
}

/// The contents of a list of calls.
pub open spec fn calls_view(calls: Seq<FunctionCallEnvelope>) -> Seq<CallView> {
    calls.map_values(|c: FunctionCallEnvelope| c@)
}

/// The identifier of a call that came without one, from a fresh UUID and the call's place.
pub open spec fn made_call_id(uuid: Seq<u8>, index: nat) -> Seq<char> {
    "call-"@ + encoding::uuid_text(uuid) + "-"@ + number::decimal(index)
}

/// Writes the identifier of a call that came without one.
pub fn make_call_id(uuid: &[u8; 16], index: usize) -> (r: String)
    ensures
        r@ == made_call_id(uuid@, index as nat),
{
    text::cat4(
        "call-",
        outside::uuid_to_text(uuid).as_str(),
        "-",
        number::decimal_text(index as u64).as_str(),
    )
}

/// The calls in a message, in order; `uuids` holds one UUID for each part, for calls without an
/// identifier.
pub open spec fn calls_of(parts: Seq<PartView>, uuids: Seq<[u8; 16]>) -> Seq<CallView>
    decreases parts.len(),
{
    if parts.len() == 0 {
        Seq::empty()
    } else {
        let rest = calls_of(parts.drop_last(), uuids);
        match parts.last() {
            PartView::FunctionCall { name, args, id } => rest.push(
                CallView {
                    function_call_id: match id {
                        Some(given) => given,
                        None => made_call_id(
                            uuids[parts.len() - 1]@,
                            (parts.len() - 1) as nat,
                        ),
                    },
                    name,
                    args,
                },
            ),
            _ => rest,
        }
    }
}

/// All calls in a message; a call without an identifier gets one from the UUID for its part.
pub fn extract_function_calls(content: &Content, uuids: &Vec<[u8; 16]>) -> (r: Vec<
    FunctionCallEnvelope,
>)
    requires
        uuids@.len() >= content@.parts.len(),
    ensures
        calls_view(r@) == calls_of(content@.parts, uuids@),
{
    let parts = &content.parts;
    let ghost all = content::parts_view(parts@);
    let mut out: Vec<FunctionCallEnvelope> = Vec::new();
    let mut i: usize = 0;
    assert(calls_view(out@) =~= Seq::empty());
    while i < parts.len()
        invariant
            i <= parts.len(),
            all == content::parts_view(parts@),
            uuids@.len() >= all.len(),
            calls_view(out@) == calls_of(all.take(i as int), uuids@),
        decreases parts.len() - i,
    {
        assert(all.take(i + 1).drop_last() =~= all.take(i as int));
        if let Part::FunctionCall { name, args, id } = &parts[i] {
            let function_call_id = match id {
                Some(given) => given.clone(),
                None => make_call_id(&uuids[i], i),
            };
            let call = FunctionCallEnvelope {
                function_call_id,
                name: name.clone(),
                args: args.clone(),
            };
            let ghost before = calls_view(out@);
            out.push(call);
            assert(calls_view(out@) =~= before.push(call@));
        }
        i = i + 1;
    }
    assert(all.take(i as int) =~= all);
    out
}

/// As many fresh UUIDs as asked for.
pub fn fresh_uuids(n: usize) -> (r: Vec<[u8; 16]>)
    ensures
        r@.len() == n,
        forall|i: int| 0 <= i < n ==> encoding::is_uuid_v4(#[trigger] r@[i]@),
{
    let mut out: Vec<[u8; 16]> = Vec::new();
    while out.len() < n
        invariant
            out@.len() <= n,
            forall|i: int| 0 <= i < out@.len() ==> encoding::is_uuid_v4(#[trigger] out@[i]@),
        decreases n - out@.len(),
    {
        out.push(outside::new_uuid());
    }
    out
}

/// The message by which the model asks for a call.
pub open spec fn call_message(call: CallView) -> ContentView {
    ContentView {
        role: "model"@,
        parts: seq![
            PartView::FunctionCall {
                name: call.name,
                args: call.args,
                id: Some(call.function_call_id),
            },
        ],
    }
}

/// Wraps a call as a message of the model.
pub fn build_model_tool_call_content(function_call: &FunctionCallEnvelope) -> (r: Content)
    ensures
        r@ == call_message(function_call@),
{
    let part = Part::FunctionCall {
        name: function_call.name.clone(),
        args: function_call.args.clone(),
        id: Some(function_call.function_call_id.clone()),
    };
    let r = Content { role: "model".to_owned(), parts: vec![part] };
    assert(r@.parts =~= seq![part@]);
    r
}

/// One more streamed part: text that follows text is joined to it, anything else stands alone.
pub open spec fn with_part(parts: Seq<PartView>, part: PartView) -> Seq<PartView> {
    if parts.len() > 0 {
        match (parts.last(), part) {
            (PartView::Text { text: current }, PartView::Text { text }) => parts.drop_last().push(
                PartView::Text { text: current + text },
            ),
            _ => parts.push(part),
        }
    } else {
        parts.push(part)
    }
}

/// Streamed parts added to what came before.
pub open spec fn merged(parts: Seq<PartView>, incoming: Seq<PartView>) -> Seq<PartView>
    decreases incoming.len(),
{
    if incoming.len() == 0 {
        parts
    } else {
        with_part(merged(parts, incoming.drop_last()), incoming.last())
    }
}

/// Adds the parts of one streamed chunk to what came before.
pub fn append_stream_parts(target: &mut Vec<Part>, incoming: &Vec<Part>)
    ensures
        content::parts_view(final(target)@) == merged(
            content::parts_view(old(target)@),
            content::parts_view(incoming@),
        ),
{
    let ghost start = content::parts_view(target@);
    let ghost all = content::parts_view(incoming@);
    let mut i: usize = 0;
    while i < incoming.len()
        invariant
            i <= incoming.len(),
            all == content::parts_view(incoming@),
            content::parts_view(target@) == merged(start, all.take(i as int)),
        decreases incoming.len() - i,
    {
        let ghost before = content::parts_view(target@);
        assert(all.take(i + 1).drop_last() =~= all.take(i as int));
        let part = incoming[i].clone();
        let n: usize = target.len();
        let mut joined: Option<String> = None;
        if n > 0 {
            if let (Part::Text { text: current }, Part::Text { text }) = (&target[n - 1], &part) {
                joined = Some(text::cat(current.as_str(), text.as_str()));
            }
        }
        assert(n > 0 ==> before.last() == target@[n - 1]@);
        match joined {
            Some(text) => {
                let last = Part::Text { text };
                target.set(n - 1, last);
                assert(content::parts_view(target@) =~= before.drop_last().push(last@));
            },
            None => {
                target.push(part);
                assert(content::parts_view(target@) =~= before.push(part@));
            },
        }
        i = i + 1;
    }
    assert(all.take(i as int) =~= all);
}

proof fn lemma_with_part_text(parts: Seq<PartView>, part: PartView)
    ensures
        text_of(with_part(parts, part)) == text_of(parts.push(part)),
{
    let w = with_part(parts, part);
    let pushed = parts.push(part);
    assert(pushed.drop_last() =~= parts);
    assert(pushed.last() == part);
    if parts.len() > 0 && parts.last() is Text && part is Text {
        assert(w.drop_last() =~= parts.drop_last());
        let before = text_of(parts.drop_last());
        let current = parts.last()->Text_text;
        let more = part->Text_text;
        assert(w.last()->Text_text == current + more);
        assert(text_of(parts) == before + current);
        assert(text_of(pushed) == text_of(parts) + more);
        assert(text_of(w) == before + (current + more));
        assert(before + (current + more) =~= before + current + more);
    }
}

/// Streaming neither adds nor drops text: the text of the merged parts is the text of what came
/// before followed by the text of the chunk.
pub proof fn law_merging_keeps_text(parts: Seq<PartView>, incoming: Seq<PartView>)
    ensures
        text_of(merged(parts, incoming)) == text_of(parts) + text_of(incoming),
    decreases incoming.len(),
{
    if incoming.len() > 0 {
        let m = merged(parts, incoming.drop_last());
        law_merging_keeps_text(parts, incoming.drop_last());
        lemma_with_part_text(m, incoming.last());
        assert(m.push(incoming.last()).drop_last() =~= m);
        assert(text_of(merged(parts, incoming)) =~= text_of(parts) + text_of(incoming));
    } else {
        assert(text_of(parts) + text_of(incoming) =~= text_of(parts));
    }
}

/// How a stream is cut into chunks makes no difference.
pub proof fn law_merging_in_chunks(parts: Seq<PartView>, a: Seq<PartView>, b: Seq<PartView>)
    ensures
        merged(merged(parts, a), b) == merged(parts, a + b),
    decreases b.len(),
{
    if b.len() > 0 {
        law_merging_in_chunks(parts, a, b.drop_last());
        assert((a + b).drop_last() =~= a + b.drop_last());
        assert((a + b).last() == b.last());
    } else {
        assert(a + b =~= a);
    }
}

/// No two text parts stand next to each other.
pub open spec fn texts_apart(parts: Seq<PartView>) -> bool {
    forall|i: int|
        0 <= i < parts.len() - 1 ==> !(#[trigger] parts[i] is Text && parts[i + 1] is Text)
}

/// Merged text parts never stand next to each other, whatever the chunks were.
pub proof fn law_merged_texts_apart(parts: Seq<PartView>, incoming: Seq<PartView>)
    requires
        texts_apart(parts),
    ensures
        texts_apart(merged(parts, incoming)),
    decreases incoming.len(),
{
    if incoming.len() > 0 {
        law_merged_texts_apart(parts, incoming.drop_last());
        let m = merged(parts, incoming.drop_last());
        let w = with_part(m, incoming.last());
        assert forall|i: int| 0 <= i < w.len() - 1 implies !(#[trigger] w[i] is Text && w[i
            + 1] is Text) by {
            if i < m.len() - 1 {
                assert(m[i] is Text == w[i] is Text);
                assert(m[i + 1] is Text == w[i + 1] is Text);
            } else {
                assert(w[i] == m[i]);
            }
        }
    }
}

/// The roles that answer a tool call.
pub open spec fn is_tool_role(role: Seq<char>) -> bool {
    role == "tool"@ || role == "function"@
}

fn is_tool_like_role(role: &str) -> (r: bool)
    ensures
        r == is_tool_role(role@),
{
    text::str_eq(role, "tool") || text::str_eq(role, "function")
}

/// `messages` without the answers to tool calls at its beginning.
pub open spec fn without_leading_answers(messages: Seq<ContentView>) -> Seq<ContentView>
    decreases messages.len(),
{
    if messages.len() > 0 && is_tool_role(messages[0].role) {
        without_leading_answers(messages.skip(1))
    } else {
        messages
    }
}

/// A window whose calls were cut off loses the answers to them; a system message stays in front.
pub open spec fn without_orphans(window: Seq<ContentView>) -> Seq<ContentView> {
    if window.len() > 0 && window[0].role == "system"@ {
        seq![window[0]] + without_leading_answers(window.skip(1))
    } else {
        without_leading_answers(window)
    }
}

/// What the model is shown of a transcript when it may see at most `max` messages: all of it where
/// it fits, else a leading system message and the most recent ones.
pub open spec fn window_of(transcript: Seq<ContentView>, max: nat) -> Seq<ContentView> {
    let n = transcript.len() as int;
    if max == 0 {
        Seq::empty()
    } else if n <= max {
        transcript
    } else if transcript[0].role == "system"@ {
        without_orphans(seq![transcript[0]] + transcript.skip(n - (max - 1)))
    } else {
        without_orphans(transcript.skip(n - max))
    }
}

fn trim_leading_orphan_tool_messages(window: Vec<Content>) -> (r: Vec<Content>)
    ensures
        content::contents_view(r@) == without_orphans(content::contents_view(window@)),
{
    let ghost all = content::contents_view(window@);
    let mut window = window;
    let start: usize = if window.len() > 0 && text::str_eq(window[0].role.as_str(), "system") {
        1
    } else {
        0
    };
    assert(window.len() > 0 ==> all[0].role == window@[0].role@);
    let ghost head = all.take(start as int);
    let ghost tail = all.skip(start as int);
    assert(content::contents_view(window@) =~= head + tail);
    let ghost mut rest = tail;
    while window.len() > start && is_tool_like_role(window[start].role.as_str())
        invariant
            head.len() == start,
            content::contents_view(window@) == head + rest,
            without_leading_answers(rest) == without_leading_answers(tail),
        decreases window.len(),
    {
        let ghost before = content::contents_view(window@);
        assert(before[start as int] == rest[0]);
        assert(window@[start as int]@ == before[start as int]);
        window.remove(start);
        assert(content::contents_view(window@) =~= before.remove(start as int));
        assert(before.remove(start as int) =~= head + rest.skip(1));
        proof {
            rest = rest.skip(1);
        }
    }
    proof {
        if window@.len() > start {
            assert(content::contents_view(window@)[start as int] == rest[0]);
        }
        assert(start == 1 ==> head =~= seq![all[0]]);
        assert(start == 0 ==> head + rest =~= rest && tail =~= all);
    }
    window
}

fn copy_tail(transcript: &VecDeque<Content>, from: usize, out: &mut Vec<Content>)
    requires
        from <= transcript@.len(),
    ensures
        content::contents_view(final(out)@) == content::contents_view(old(out)@)
            + content::contents_view(transcript@).skip(from as int),
{
    let ghost start = content::contents_view(out@);
    let ghost all = content::contents_view(transcript@);
    let mut i: usize = from;
    assert(start + all.subrange(from as int, i as int) =~= start);
    while i < transcript.len()
        invariant
            from <= i <= transcript@.len(),
            all == content::contents_view(transcript@),
            content::contents_view(out@) == start + all.subrange(from as int, i as int),
        decreases transcript@.len() - i,
    {
        let ghost before = content::contents_view(out@);
        let next = transcript[i].clone();
        out.push(next);
        assert(content::contents_view(out@) =~= before.push(all[i as int]));
        i = i + 1;
        assert(all.subrange(from as int, i as int) =~= all.subrange(from as int, i - 1).push(
            all[i - 1],
        ));
    }
    assert(all.subrange(from as int, i as int) =~= all.skip(from as int));
}

/// Builds what the model is shown of a transcript when it may see at most `max_messages` messages.
pub fn build_llm_context_window(transcript: &VecDeque<Content>, max_messages: usize) -> (r: Vec<
    Content,
>)
    ensures
        content::contents_view(r@) == window_of(
            content::contents_view(transcript@),
            max_messages as nat,
        ),
{
    let ghost all = content::contents_view(transcript@);
    let n: usize = transcript.len();
    let mut window: Vec<Content> = Vec::new();
    assert(content::contents_view(window@) =~= Seq::empty());
    if max_messages == 0 || n == 0 {
        assert(n == 0 ==> all =~= Seq::empty());
        return window;
    }
    if n <= max_messages {
        copy_tail(transcript, 0, &mut window);
        assert(Seq::<ContentView>::empty() + all.skip(0) =~= all);
        return window;
    }
    assert(all[0].role == transcript@[0].role@);
    if text::str_eq(transcript[0].role.as_str(), "system") {
        let first = transcript[0].clone();
        window.push(first);
        assert(content::contents_view(window@) =~= seq![all[0]]);
        copy_tail(transcript, n - (max_messages - 1), &mut window);
    } else {
        copy_tail(transcript, n - max_messages, &mut window);
        assert(Seq::<ContentView>::empty() + all.skip(n - max_messages) =~= all.skip(
            n - max_messages,
        ));
    }
    trim_leading_orphan_tool_messages(window)
}

proof fn lemma_leading_answers(messages: Seq<ContentView>)
    ensures
        without_leading_answers(messages).len() <= messages.len(),
        without_leading_answers(messages).len() > 0 ==> !is_tool_role(
            without_leading_answers(messages)[0].role,
        ),
        without_leading_answers(messages) == messages.skip(
            messages.len() - without_leading_answers(messages).len(),
        ),
    decreases messages.len(),
{
    if messages.len() > 0 && is_tool_role(messages[0].role) {
        lemma_leading_answers(messages.skip(1));
        let rest = without_leading_answers(messages.skip(1));
        assert(messages.skip(1).skip(messages.len() - 1 - rest.len()) =~= messages.skip(
            messages.len() - rest.len(),
        ));
    } else {
        assert(messages.skip(0) =~= messages);
    }
}

/// A window never holds more messages than allowed, and a leading system message is never cut.
pub proof fn law_window_is_bounded(transcript: Seq<ContentView>, max: nat)
    ensures
        window_of(transcript, max).len() <= max,
        max > 0 && transcript.len() > 0 && transcript[0].role == "system"@ ==> {
            &&& window_of(transcript, max).len() > 0
            &&& window_of(transcript, max)[0] == transcript[0]
        },
{
    let n = transcript.len() as int;
    if max > 0 && n > max {
        let w = if transcript[0].role == "system"@ {
            seq![transcript[0]] + transcript.skip(n - (max - 1))
        } else {
            transcript.skip(n - max)
        };
        lemma_leading_answers(w);
        lemma_leading_answers(w.skip(1));
    }
}

/// A window that was cut holds the latest messages: an unbroken run up to the end of the
/// transcript, behind the leading system message where there is one.
pub proof fn law_window_keeps_the_latest(transcript: Seq<ContentView>, max: nat)
    requires
        0 < max < transcript.len(),
        transcript[0].role == "system"@ || transcript[transcript.len() - max].role != "system"@,
    ensures
        ({
            let w = window_of(transcript, max);
            if transcript[0].role == "system"@ {
                w == seq![transcript[0]] + transcript.skip(transcript.len() - (w.len() - 1))
            } else {
                w == transcript.skip(transcript.len() - w.len())
            }
        }),
{
    let n = transcript.len() as int;
    if transcript[0].role == "system"@ {
        let tail = transcript.skip(n - (max - 1));
        let cut = seq![transcript[0]] + tail;
        assert(cut.skip(1) =~= tail);
        lemma_leading_answers(tail);
        let left = without_leading_answers(tail);
        assert(left =~= transcript.skip(n - left.len()));
        assert(window_of(transcript, max) =~= seq![transcript[0]] + left);
    } else {
        let tail = transcript.skip(n - max);
        lemma_leading_answers(tail);
        let left = without_leading_answers(tail);
        assert(left =~= transcript.skip(n - left.len()));
    }
}

/// Where messages were cut, what is left does not begin with the answer to a tool call, nor does
/// what follows a leading system message that was kept.
pub proof fn law_window_starts_clean(transcript: Seq<ContentView>, max: nat)
    requires
        0 < max < transcript.len(),
    ensures
        ({
            let w = window_of(transcript, max);
            &&& w.len() > 0 ==> !is_tool_role(w[0].role)
            &&& transcript[0].role == "system"@ && w.len() > 1 ==> !is_tool_role(w[1].role)
        }),
{
    let n = transcript.len() as int;
    let w = if transcript[0].role == "system"@ {
        seq![transcript[0]] + transcript.skip(n - (max - 1))
    } else {
        transcript.skip(n - max)
    };
    lemma_leading_answers(w);
    lemma_leading_answers(w.skip(1));
    reveal_strlit("system");
    reveal_strlit("tool");
    reveal_strlit("function");
    assert("system"@[0] == 's' && "tool"@[0] == 't' && "function"@[0] == 'f');
}

} // verus!
