//! Sessions held in memory, and what is shown of their messages.

use vstd::prelude::*;
use vstd::string::*;

use crate::engine::content;
use crate::engine::content::{Content, ContentView, Part, PartView};
use crate::engine::util;
use crate::text;

verus! {

/// What is shown of a message.
#[derive(Debug)]
pub struct MessageView {
    pub role: String,
    pub kind: String,
    pub text: String,
}

/// The contents of what is shown of a message.
pub struct ShownMessage {
    pub role: Seq<char>,
    pub kind: Seq<char>,
    pub text: Seq<char>,
}

impl View for MessageView {
    type V = ShownMessage;

    open spec fn view(&self) -> ShownMessage {
        ShownMessage { role: self.role@, kind: self.kind@, text: self.text@ }
    }
}

/// Whether some part asks for a call.
pub open spec fn asks_for_call(parts: Seq<PartView>) -> bool {
    exists|i: int| 0 <= i < parts.len() && #[trigger] parts[i] is FunctionCall
}

/// Whether some part answers a call.
pub open spec fn answers_call(parts: Seq<PartView>) -> bool {
    exists|i: int| 0 <= i < parts.len() && #[trigger] parts[i] is FunctionResponse
}

/// What is shown of a message: its role, its kind and its text.
pub open spec fn shown(m: ContentView) -> ShownMessage {
    ShownMessage {
        role: m.role,
        kind: if asks_for_call(m.parts) {
            "tool_call"@
        } else if answers_call(m.parts) {
            "tool_result"@
        } else {
            "text"@
        },
        text: text::trimmed(util::text_of(m.parts)),
    }
}

/// What is shown of several messages.
pub open spec fn shown_all(ms: Seq<ContentView>) -> Seq<ShownMessage> {
    ms.map_values(|m: ContentView| shown(m))
}

/// The contents of what is shown of several messages.
pub open spec fn message_views(vs: Seq<MessageView>) -> Seq<ShownMessage> {
    vs.map_values(|v: MessageView| v@)
}

impl MessageView {
    /// Shows a message.
    pub fn of(m: &Content) -> (r: Self)
        ensures
            r@ == shown(m@),
    {
        let mut call = false;
        let mut answer = false;
        let mut i: usize = 0;
        while i < m.parts.len()
            invariant
                i <= m.parts@.len(),
                call == exists|j: int| 0 <= j < i && #[trigger] m@.parts[j] is FunctionCall,
                answer == exists|j: int| 0 <= j < i && #[trigger] m@.parts[j] is FunctionResponse,
            decreases m.parts@.len() - i,
        {
            assert(m@.parts[i as int] == m.parts@[i as int]@);
            match &m.parts[i] {
                Part::FunctionCall { .. } => {
                    call = true;
                },
                Part::FunctionResponse { .. } => {
                    answer = true;
                },
                _ => {},
            }
            i = i + 1;
        }
        MessageView {
            role: m.role.clone(),
            kind: if call {
                "tool_call".to_owned()
            } else if answer {
                "tool_result".to_owned()
            } else {
                "text".to_owned()
            },
            text: util::extract_text(m),
        }
    }

    /// Shows several messages, from the given place on.
    pub fn of_all(ms: &Vec<Content>, from: usize) -> (r: Vec<Self>)
        requires
            from <= ms@.len(),
        ensures
            message_views(r@) == shown_all(content::contents_view(ms@).skip(from as int)),
    {
        let mut out: Vec<MessageView> = Vec::new();
        let mut i: usize = from;
        while i < ms.len()
            invariant
                from <= i <= ms@.len(),
                out@.len() == i - from,
                forall|j: int|
                    0 <= j < out@.len() ==> (#[trigger] out@[j])@ == shown(ms@[j + from]@),
            decreases ms@.len() - i,
        {
            out.push(MessageView::of(&ms[i]));
            i = i + 1;
        }
        assert(message_views(out@) =~= shown_all(content::contents_view(ms@).skip(from as int)));
        out
    }
}

/// One session.
#[derive(Debug)]
pub struct Session {
    pub session_id: String,
    pub messages: Vec<Content>,
}

/// What is shown of a session in a list.
#[derive(Debug)]
pub struct SessionSummary {
    pub session_id: String,
    pub message_count: usize,
    pub last_message_preview: Option<String>,
}

/// All sessions, no two of one identifier, in the order of their first message.
#[derive(Debug)]
pub struct SessionStore {
    pub sessions: Vec<Session>,
}

/// Whether no two sessions have one identifier.
pub open spec fn ids_distinct(ss: Seq<Session>) -> bool {
    forall|i: int, j: int| 0 <= i < j < ss.len() ==> ss[i].session_id@ != ss[j].session_id@
}

/// The messages of a session; one that was never written to has none.
pub open spec fn messages_of(ss: Seq<Session>, id: Seq<char>) -> Seq<ContentView>
    decreases ss.len(),
{
    if ss.len() == 0 {
        Seq::empty()
    } else if ss.last().session_id@ == id {
        content::contents_view(ss.last().messages@)
    } else {
        messages_of(ss.drop_last(), id)
    }
}

/// The identifiers of sessions.
pub open spec fn ids_of(ss: Seq<Session>) -> Seq<Seq<char>> {
    ss.map_values(|s: Session| s.session_id@)
}

/// The identifiers after a session was written to: one that is new comes last.
pub open spec fn with_id(ids: Seq<Seq<char>>, id: Seq<char>) -> Seq<Seq<char>> {
    if ids.contains(id) {
        ids
    } else {
        ids.push(id)
    }
}

/// The last messages of a list.
pub open spec fn latest(ms: Seq<ContentView>, limit: Option<usize>) -> Seq<ContentView> {
    match limit {
        Some(n) => if n < ms.len() {
            ms.skip(ms.len() - n)
        } else {
            ms
        },
        None => ms,
    }
}

/// Whether a summary tells of the session of that identifier with those messages.
pub open spec fn sums_up(summary: SessionSummary, id: Seq<char>, ms: Seq<ContentView>) -> bool {
    &&& summary.session_id@ == id
    &&& summary.message_count == ms.len()
    &&& text::opt_view(summary.last_message_preview) == if ms.len() == 0 {
        None
    } else {
        Some(util::preview_of(shown(ms.last()).text, 120))
    }
}

impl Default for SessionStore {
    /// No sessions yet.
    fn default() -> (r: Self)
        ensures
            r.wf(),
            r.ids() == Seq::<Seq<char>>::empty(),
            forall|id: Seq<char>| #[trigger] r.messages(id) == Seq::<ContentView>::empty(),
    {
        let r = SessionStore { sessions: Vec::new() };
        assert(r.ids() =~= Seq::empty());
        r
    }
}

impl SessionStore {
    /// The store's invariant.
    pub open spec fn wf(&self) -> bool {
        ids_distinct(self.sessions@)
    }

    /// The identifiers of the sessions, in the order of their first message.
    pub open spec fn ids(&self) -> Seq<Seq<char>> {
        ids_of(self.sessions@)
    }

    /// The messages of a session; one that was never written to has none.
    pub open spec fn messages(&self, id: Seq<char>) -> Seq<ContentView> {
        messages_of(self.sessions@, id)
    }

    fn find(&self, id: &str) -> (r: Option<usize>)
        requires
            self.wf(),
        ensures
            match r {
                Some(i) => {
                    &&& i < self.sessions@.len()
                    &&& self.sessions@[i as int].session_id@ == id@
                    &&& self.messages(id@) == content::contents_view(
                        self.sessions@[i as int].messages@,
                    )
                },
                None => {
                    &&& self.messages(id@) == Seq::<ContentView>::empty()
                    &&& forall|i: int|
                        0 <= i < self.sessions@.len() ==> (
                        #[trigger] self.sessions@[i]).session_id@ != id@
                },
            },
    {
        let mut i: usize = self.sessions.len();
        assert(self.sessions@.take(i as int) =~= self.sessions@);
        while i > 0
            invariant
                i <= self.sessions@.len(),
                messages_of(self.sessions@, id@) == messages_of(
                    self.sessions@.take(i as int),
                    id@,
                ),
                forall|j: int|
                    i <= j < self.sessions@.len() ==> (#[trigger] self.sessions@[j]).session_id@
                        != id@,
            decreases i,
        {
            assert(self.sessions@.take(i as int).drop_last() =~= self.sessions@.take(i - 1));
            assert(self.sessions@.take(i as int).last() == self.sessions@[i - 1]);
            if text::str_eq(self.sessions[i - 1].session_id.as_str(), id) {
                return Some(i - 1);
            }
            i = i - 1;
        }
        None
    }

    /// A copy of the messages of a session.
    pub fn snapshot(&self, session_id: &str) -> (r: Vec<Content>)
        requires
            self.wf(),
        ensures
            content::contents_view(r@) == self.messages(session_id@),
    {
        let mut out: Vec<Content> = Vec::new();
        assert(content::contents_view(out@) =~= Seq::empty());
        if let Some(k) = self.find(session_id) {
            let ms = &self.sessions[k].messages;
            append_copies(&mut out, ms);
            assert(Seq::<ContentView>::empty() + content::contents_view(ms@)
                =~= content::contents_view(ms@));
        }
        out
    }

    /// Adds messages to a session, which is made where it does not exist yet.
    pub fn append_many(&mut self, session_id: &str, messages: &Vec<Content>)
        requires
            old(self).wf(),
        ensures
            final(self).wf(),
            forall|id: Seq<char>| #[trigger]
                final(self).messages(id) == if id == session_id@ {
                    old(self).messages(id) + content::contents_view(messages@)
                } else {
                    old(self).messages(id)
                },
            final(self).ids() == with_id(old(self).ids(), session_id@),
    {
        let ghost before = self.sessions@;
        match self.find(session_id) {
            Some(k) => {
                let ghost mine = self.sessions@[k as int];
                let mut all: Vec<Content> = Vec::new();
                assert(content::contents_view(all@) =~= Seq::empty());
                append_copies(&mut all, &self.sessions[k].messages);
                append_copies(&mut all, messages);
                assert(content::contents_view(all@) =~= content::contents_view(mine.messages@)
                    + content::contents_view(messages@));
                let s = Session { session_id: session_id.to_owned(), messages: all };
                self.sessions.set(k, s);
                assert(ids_of(before)[k as int] == session_id@);
                assert(self.ids() =~= ids_of(before));
                assert forall|id: Seq<char>| #[trigger]
                    self.messages(id) == if id == session_id@ {
                        messages_of(before, id) + content::contents_view(messages@)
                    } else {
                        messages_of(before, id)
                    } by {
                    lemma_messages_update(before, k as int, s, id);
                    lemma_messages_at(before, k as int);
                }
            },
            None => {
                let mut all: Vec<Content> = Vec::new();
                assert(content::contents_view(all@) =~= Seq::empty());
                append_copies(&mut all, messages);
                let s = Session { session_id: session_id.to_owned(), messages: all };
                self.sessions.push(s);
                assert(!ids_of(before).contains(session_id@));
                assert(self.ids() =~= ids_of(before).push(session_id@));
                assert(self.sessions@.drop_last() =~= before);
                assert(Seq::<ContentView>::empty() + content::contents_view(messages@)
                    =~= content::contents_view(messages@));
            },
        }
    }

    /// What is shown of a session: all of it, or its last messages.
    pub fn history(&self, session_id: &str, limit: Option<usize>) -> (r: Vec<MessageView>)
        requires
            self.wf(),
        ensures
            message_views(r@) == shown_all(latest(self.messages(session_id@), limit)),
    {
        match self.find(session_id) {
            Some(k) => {
                let ms = &self.sessions[k].messages;
                let n: usize = ms.len();
                let from: usize = match limit {
                    Some(l) => if l < n {
                        n - l
                    } else {
                        0
                    },
                    None => 0,
                };
                assert(content::contents_view(ms@).skip(0) =~= content::contents_view(ms@));
                MessageView::of_all(ms, from)
            },
            None => {
                let out: Vec<MessageView> = Vec::new();
                assert(message_views(out@) =~= shown_all(
                    latest(Seq::<ContentView>::empty(), limit),
                ));
                out
            },
        }
    }

    /// How many messages a session has.
    pub fn session_message_count(&self, session_id: &str) -> (r: usize)
        requires
            self.wf(),
        ensures
            r == self.messages(session_id@).len(),
    {
        match self.find(session_id) {
            Some(k) => self.sessions[k].messages.len(),
            None => 0,
        }
    }

    /// A summary of every session, or of the first ones.
    pub fn list(&self, limit: Option<usize>) -> (r: Vec<SessionSummary>)
        requires
            self.wf(),
        ensures
            r@.len() == match limit {
                Some(n) => if n < self.ids().len() {
                    n as nat
                } else {
                    self.ids().len()
                },
                None => self.ids().len(),
            },
            forall|i: int|
                0 <= i < r@.len() ==> sums_up(
                    #[trigger] r@[i],
                    self.ids()[i],
                    self.messages(self.ids()[i]),
                ),
    {
        let n: usize = match limit {
            Some(l) => if l < self.sessions.len() {
                l
            } else {
                self.sessions.len()
            },
            None => self.sessions.len(),
        };
        let mut out: Vec<SessionSummary> = Vec::new();
        let mut i: usize = 0;
        while i < n
            invariant
                i <= n <= self.sessions@.len(),
                self.wf(),
                out@.len() == i,
                forall|j: int|
                    0 <= j < i ==> sums_up(
                        #[trigger] out@[j],
                        self.ids()[j],
                        self.messages(self.ids()[j]),
                    ),
            decreases n - i,
        {
            proof {
                lemma_messages_at(self.sessions@, i as int);
            }
            let s = &self.sessions[i];
            let count: usize = s.messages.len();
            let last_message_preview = if count == 0 {
                None
            } else {
                let last = MessageView::of(&s.messages[count - 1]);
                Some(util::preview_text(last.text.as_str(), 120))
            };
            out.push(
                SessionSummary {
                    session_id: s.session_id.clone(),
                    message_count: count,
                    last_message_preview,
                },
            );
            i = i + 1;
        }
        out
    }
}

fn append_copies(out: &mut Vec<Content>, ms: &Vec<Content>)
    ensures
        content::contents_view(final(out)@) == content::contents_view(old(out)@)
            + content::contents_view(ms@),
{
    let ghost start = content::contents_view(out@);
    let ghost all = content::contents_view(ms@);
    let mut i: usize = 0;
    assert(start + all.take(0) =~= start);
    while i < ms.len()
        invariant
            i <= ms@.len(),
            all == content::contents_view(ms@),
            content::contents_view(out@) == start + all.take(i as int),
        decreases ms@.len() - i,
    {
        let ghost before = content::contents_view(out@);
        out.push(ms[i].clone());
        assert(content::contents_view(out@) =~= before.push(all[i as int]));
        i = i + 1;
        assert(all.take(i as int) =~= all.take(i - 1).push(all[i - 1]));
    }
    assert(all.take(i as int) =~= all);
}

proof fn lemma_messages_at(ss: Seq<Session>, k: int)
    requires
        0 <= k < ss.len(),
        ids_distinct(ss),
    ensures
        messages_of(ss, ss[k].session_id@) == content::contents_view(ss[k].messages@),
    decreases ss.len(),
{
    if k < ss.len() - 1 {
        lemma_messages_at(ss.drop_last(), k);
    }
}

proof fn lemma_messages_update(ss: Seq<Session>, k: int, s: Session, id: Seq<char>)
    requires
        0 <= k < ss.len(),
        ids_distinct(ss),
        s.session_id@ == ss[k].session_id@,
    ensures
        messages_of(ss.update(k, s), id) == if id == s.session_id@ {
            content::contents_view(s.messages@)
        } else {
            messages_of(ss, id)
        },
    decreases ss.len(),
{
    let us = ss.update(k, s);
    if k < ss.len() - 1 {
        assert(us.drop_last() =~= ss.drop_last().update(k, s));
        lemma_messages_update(ss.drop_last(), k, s, id);
    } else {
        assert(us.drop_last() =~= ss.drop_last());
    }
}

} // verus!
