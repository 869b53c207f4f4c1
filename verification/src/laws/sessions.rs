//! What holds of the sessions that are kept.

use vstd::prelude::*;
use vstd::string::*;

use crate::engine::content;
use crate::engine::content::{Content, Part};
use crate::engine::util;
use crate::session_store;
use crate::session_store::{MessageView, SessionStore, SessionSummary};
use crate::text;

verus! {

/// What is written to a session is read back from it, behind what was there before, in order and
/// unchanged; no other session changes, and a new one comes last.
pub proof fn law_what_is_written_is_read_back(
    store: &mut SessionStore,
    session_id: &str,
    messages: &Vec<Content>,
    before: Vec<Content>,
    after: Vec<Content>,
)
    requires
        call_ensures(SessionStore::append_many, (store, session_id, messages), ()),
        call_ensures(SessionStore::snapshot, (&*old(store), session_id), before),
        call_ensures(SessionStore::snapshot, (&*final(store), session_id), after),
    ensures
        after@.len() == before@.len() + messages@.len(),
        forall|i: int| 0 <= i < before@.len() ==> (#[trigger] after@[i])@ == before@[i]@,
        forall|i: int|
            0 <= i < messages@.len() ==> after@[before@.len() + i]@ == (#[trigger] messages@[i])@,
        forall|id: Seq<char>|
            id != session_id@ ==> #[trigger] final(store).messages(id) == old(store).messages(id),
        old(store).ids().contains(session_id@) ==> final(store).ids() == old(store).ids(),
        !old(store).ids().contains(session_id@) ==> final(store).ids() == old(store).ids().push(
            session_id@,
        ),
{
    let b = content::contents_view(before@);
    let a = content::contents_view(after@);
    let m = content::contents_view(messages@);
    assert(a == b + m);
    assert(a.len() == after@.len());
    assert forall|i: int| 0 <= i < before@.len() implies (#[trigger] after@[i])@ == before@[i]@ by {
        assert(a[i] == after@[i]@ && b[i] == before@[i]@);
    }
    assert forall|i: int| 0 <= i < messages@.len() implies after@[before@.len() + i]@ == (
    #[trigger] messages@[i])@ by {
        assert(a[before@.len() + i] == after@[before@.len() + i]@);
        assert(m[i] == messages@[i]@);
    }
}

/// A session that was never written to is empty.
pub proof fn law_new_store_is_empty(store: SessionStore, session_id: &str, n: usize)
    requires
        call_ensures(SessionStore::default, (), store),
        call_ensures(SessionStore::session_message_count, (&store, session_id), n),
    ensures
        n == 0,
        store.ids().len() == 0,
{
    assert(store.messages(session_id@) == Seq::<content::ContentView>::empty());
}

/// The count of a session is the number of its messages.
pub proof fn law_count_is_of_the_messages(
    store: &SessionStore,
    session_id: &str,
    all: Vec<Content>,
    n: usize,
)
    requires
        call_ensures(SessionStore::snapshot, (store, session_id), all),
        call_ensures(SessionStore::session_message_count, (store, session_id), n),
    ensures
        n == all@.len(),
{
    assert(content::contents_view(all@).len() == all@.len());
}

/// The history of a session shows its messages one by one, in order: all of them, or the latest as
/// many as asked for.
pub proof fn law_history_shows_the_latest(
    store: &SessionStore,
    session_id: &str,
    limit: Option<usize>,
    all: Vec<Content>,
    r: Vec<MessageView>,
    i: int,
    m: &Content,
    shown: MessageView,
)
    requires
        call_ensures(SessionStore::snapshot, (store, session_id), all),
        call_ensures(SessionStore::history, (store, session_id, limit), r),
        call_ensures(MessageView::of, (m,), shown),
    ensures
        ({
            let n = all@.len() as int;
            let k = match limit {
                Some(l) => if l < n {
                    l as int
                } else {
                    n
                },
                None => n,
            };
            &&& r@.len() == k
            &&& 0 <= i < k && m@ == all@[n - k + i]@ ==> r@[i]@ == shown@
        }),
{
    let ms = content::contents_view(all@);
    let kept = session_store::latest(ms, limit);
    let rv = session_store::message_views(r@);
    assert(rv == session_store::shown_all(kept));
    assert(rv.len() == r@.len() && ms.len() == all@.len());
    let n = all@.len() as int;
    let k = r@.len() as int;
    if 0 <= i < k && m@ == all@[n - k + i]@ {
        assert(rv[i] == r@[i]@);
        assert(kept[i] == ms[n - k + i]);
        assert(ms[n - k + i] == all@[n - k + i]@);
    }
}

/// What is shown of a message: who spoke, all of its text trimmed, and whether it asks for a call,
/// answers one or is plain text.
pub proof fn law_shown_message_tells_its_kind(m: &Content, r: MessageView, said: String)
    requires
        call_ensures(MessageView::of, (m,), r),
        call_ensures(util::extract_text, (m,), said),
    ensures
        r.role@ == m.role@,
        r.text@ == said@,
        r.kind@ == if exists|i: int|
            0 <= i < m.parts@.len() && (#[trigger] m.parts@[i]) is FunctionCall {
            "tool_call"@
        } else if exists|i: int|
            0 <= i < m.parts@.len() && (#[trigger] m.parts@[i]) is FunctionResponse {
            "tool_result"@
        } else {
            "text"@
        },
{
    let pv = m@.parts;
    assert(pv.len() == m.parts@.len());
    assert forall|i: int| 0 <= i < pv.len() implies #[trigger] pv[i] == m.parts@[i]@ by {}
    if exists|i: int| 0 <= i < m.parts@.len() && (#[trigger] m.parts@[i]) is FunctionCall {
        let i = choose|i: int|
            0 <= i < m.parts@.len() && (#[trigger] m.parts@[i]) is FunctionCall;
        assert(pv[i] is FunctionCall);
    }
    if exists|i: int| 0 <= i < m.parts@.len() && (#[trigger] m.parts@[i]) is FunctionResponse {
        let i = choose|i: int|
            0 <= i < m.parts@.len() && (#[trigger] m.parts@[i]) is FunctionResponse;
        assert(pv[i] is FunctionResponse);
    }
}

/// The list of sessions tells each of them once, in the order of their first message: how many
/// messages it has, and how the last one reads.
pub proof fn law_list_tells_every_session(
    store: &SessionStore,
    limit: Option<usize>,
    r: Vec<SessionSummary>,
    i: int,
    id: &str,
    all: Vec<Content>,
    last: &Content,
    shown: MessageView,
    words: &str,
    preview: String,
)
    requires
        call_ensures(SessionStore::list, (store, limit), r),
        0 <= i < r@.len(),
        id@ == store.ids()[i],
        call_ensures(SessionStore::snapshot, (store, id), all),
        all@.len() > 0 ==> last@ == all@.last()@,
        call_ensures(MessageView::of, (last,), shown),
        words@ == shown.text@,
        call_ensures(util::preview_text, (words, 120), preview),
    ensures
        r@.len() == match limit {
            Some(l) => if l < store.ids().len() {
                l as int
            } else {
                store.ids().len() as int
            },
            None => store.ids().len() as int,
        },
        r@[i].session_id@ == id@,
        r@[i].message_count == all@.len(),
        all@.len() == 0 ==> r@[i].last_message_preview is None,
        all@.len() > 0 ==> (r@[i].last_message_preview matches Some(p) && p@ == preview@),
{
    let ms = content::contents_view(all@);
    assert(ms == store.messages(id@));
    assert(ms.len() == all@.len());
    assert(session_store::sums_up(r@[i], store.ids()[i], store.messages(store.ids()[i])));
    if all@.len() > 0 {
        assert(ms.last() == all@.last()@);
    }
}

/// Several messages are shown one by one, from a place on and in order.
pub proof fn law_messages_are_shown_one_by_one(
    ms: &Vec<Content>,
    from: usize,
    r: Vec<MessageView>,
    i: int,
    m: &Content,
    shown: MessageView,
)
    requires
        call_ensures(MessageView::of_all, (ms, from), r),
        from <= ms@.len(),
        0 <= i < ms@.len() - from,
        *m == ms@[from + i],
        call_ensures(MessageView::of, (m,), shown),
    ensures
        r@.len() == ms@.len() - from,
        r@[i].role@ == shown.role@,
        r@[i].kind@ == shown.kind@,
        r@[i].text@ == shown.text@,
{
    let rv = session_store::message_views(r@);
    let all = content::contents_view(ms@);
    let kept = all.skip(from as int);
    assert(rv == session_store::shown_all(kept));
    assert(rv.len() == r@.len());
    assert(rv[i] == r@[i]@);
    assert(kept[i] == all[from + i]);
    assert(all[from + i] == ms@[from + i]@);
}

} // verus!
