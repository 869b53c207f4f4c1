//! What the channel remembers: accounts, what is known of their monitors, and context tokens.

use vstd::prelude::*;
use vstd::string::*;
use vstd::utf8::*;

use crate::channel::weixin::types::{
    WeixinAccountRecord, WeixinAccountRuntimeState, WeixinAccountSummary,
};
use crate::encoding;
use crate::number;
use crate::outside;
use crate::text;

verus! {

/// A name that is safe in a file system.
pub open spec fn safe_name(value: Seq<char>) -> Seq<char> {
    encoding::base64_of(encode_utf8(value), true, false)
}

/// Makes a name that is safe in a file system.
pub fn encode_component(value: &str) -> (r: String)
    ensures
        r@ == safe_name(value@),
{
    outside::base64_url_encode(value.as_bytes())
}

/// What is kept of an account, each in a directory of its own.
#[derive(Debug, Clone, Copy, PartialEq, Eq, Structural)]
pub enum Kept {
    Account,
    Sync,
    Context,
}

/// The directory of what is kept.
pub open spec fn dir_of(kept: Kept) -> Seq<char> {
    match kept {
        Kept::Account => "accounts"@,
        Kept::Sync => "sync"@,
        Kept::Context => "context"@,
    }
}

/// The path, below the state directory, of what is kept of an account.
pub open spec fn path_of(kept: Kept, account_id: Seq<char>) -> Seq<char> {
    dir_of(kept) + "/"@ + safe_name(account_id) + ".json"@
}

/// Names the directory of what is kept.
pub fn kept_dir(kept: Kept) -> (r: &'static str)
    ensures
        r@ == dir_of(kept),
{
    match kept {
        Kept::Account => "accounts",
        Kept::Sync => "sync",
        Kept::Context => "context",
    }
}

fn kept_path(kept: Kept, account_id: &str) -> (r: String)
    ensures
        r@ == path_of(kept, account_id@),
{
    text::cat4(kept_dir(kept), "/", encode_component(account_id).as_str(), ".json")
}

/// The file of an account.
pub fn account_path(account_id: &str) -> (r: String)
    ensures
        r@ == path_of(Kept::Account, account_id@),
{
    kept_path(Kept::Account, account_id)
}

/// The file of the place up to which an account has read its news.
pub fn sync_path(account_id: &str) -> (r: String)
    ensures
        r@ == path_of(Kept::Sync, account_id@),
{
    kept_path(Kept::Sync, account_id)
}

/// The file of the context tokens of an account.
pub fn context_path(account_id: &str) -> (r: String)
    ensures
        r@ == path_of(Kept::Context, account_id@),
{
    kept_path(Kept::Context, account_id)
}

/// No two accounts share a file, and no account keeps two things in one file.
pub proof fn law_files_are_apart(j: Kept, a: Seq<char>, k: Kept, b: Seq<char>)
    requires
        path_of(j, a) == path_of(k, b),
    ensures
        j == k,
        a == b,
{
    reveal_strlit("accounts");
    reveal_strlit("sync");
    reveal_strlit("context");
    let p = path_of(j, a);
    let q = path_of(k, b);
    assert(p[0] == dir_of(j)[0] && q[0] == dir_of(k)[0]);
    assert(dir_of(Kept::Account)[0] == 'a' && dir_of(Kept::Sync)[0] == 's' && dir_of(
        Kept::Context,
    )[0] == 'c');
    assert(j == k);
    let x = safe_name(a);
    let y = safe_name(b);
    let d = dir_of(j).len() as int + 1;
    reveal_strlit("/");
    assert(p.len() == d + x.len() + ".json"@.len());
    assert(q.len() == d + y.len() + ".json"@.len());
    assert(x =~= p.subrange(d, d + x.len()));
    assert(y =~= q.subrange(d, d + y.len()));
    encoding::law_base64_is_reversible(encode_utf8(a), encode_utf8(b), true, false);
    encode_utf8_decode_utf8(a);
    encode_utf8_decode_utf8(b);
}

/// One entry of a file that holds texts by name.
#[derive(Debug)]
pub struct NamedText {
    pub name: String,
    pub value: String,
}

/// What is kept of the place up to which an account has read its news.
pub fn sync_entries(cursor: &str, now_ms: u64) -> (r: Vec<NamedText>)
    ensures
        r@.len() == 2,
        r@[0].name@ == "get_updates_buf"@,
        r@[0].value@ == cursor@,
        r@[1].name@ == "updated_at_ms"@,
        r@[1].value@ == number::decimal(now_ms as nat),
{
    vec![
        NamedText { name: "get_updates_buf".to_owned(), value: cursor.to_owned() },
        NamedText { name: "updated_at_ms".to_owned(), value: number::decimal_text(now_ms) },
    ]
}

/// Whether no two entries have one name.
pub open spec fn names_unique(entries: Seq<NamedText>) -> bool {
    forall|i: int, j: int| 0 <= i < j < entries.len() ==> entries[i].name@ != entries[j].name@
}

/// The text under a name; where a name stands twice the last counts.
pub open spec fn text_under(entries: Seq<NamedText>, name: Seq<char>) -> Option<Seq<char>>
    decreases entries.len(),
{
    if entries.len() == 0 {
        None
    } else if entries.last().name@ == name {
        Some(entries.last().value@)
    } else {
        text_under(entries.drop_last(), name)
    }
}

/// The text under a name.
pub fn find_text(entries: &Vec<NamedText>, name: &str) -> (r: Option<String>)
    ensures
        text::opt_view(r) == text_under(entries@, name@),
{
    let mut i: usize = entries.len();
    assert(entries@.take(i as int) =~= entries@);
    while i > 0
        invariant
            i <= entries@.len(),
            text_under(entries@, name@) == text_under(entries@.take(i as int), name@),
        decreases i,
    {
        assert(entries@.take(i as int).drop_last() =~= entries@.take(i - 1));
        assert(entries@.take(i as int).last() == entries@[i - 1]);
        if text::str_eq(entries[i - 1].name.as_str(), name) {
            return Some(entries[i - 1].value.clone());
        }
        i = i - 1;
    }
    None
}

/// Reads the place up to which an account has read its news.
pub fn read_sync_cursor(entries: &Vec<NamedText>) -> (r: Option<String>)
    ensures
        text::opt_view(r) == text_under(entries@, "get_updates_buf"@),
{
    find_text(entries, "get_updates_buf")
}

proof fn lemma_text_update(entries: Seq<NamedText>, k: int, e: NamedText, name: Seq<char>)
    requires
        0 <= k < entries.len(),
        entries[k].name@ == e.name@,
        forall|j: int| k < j < entries.len() ==> (#[trigger] entries[j]).name@ != e.name@,
    ensures
        text_under(entries.update(k, e), name) == if name == e.name@ {
            Some(e.value@)
        } else {
            text_under(entries, name)
        },
    decreases entries.len(),
{
    let us = entries.update(k, e);
    if k == entries.len() - 1 {
        assert(us.drop_last() =~= entries.drop_last());
    } else {
        assert(us.drop_last() =~= entries.drop_last().update(k, e));
        lemma_text_update(entries.drop_last(), k, e, name);
    }
}

/// Puts a text under a name, in place of the one that stood there.
pub fn put_text(entries: &mut Vec<NamedText>, name: &str, value: &str)
    requires
        names_unique(old(entries)@),
    ensures
        names_unique(final(entries)@),
        forall|other: Seq<char>| #[trigger]
            text_under(final(entries)@, other) == if other == name@ {
                Some(value@)
            } else {
                text_under(old(entries)@, other)
            },
{
    let ghost before = entries@;
    let e = NamedText { name: name.to_owned(), value: value.to_owned() };
    let mut k: usize = 0;
    while k < entries.len() && !text::str_eq(entries[k].name.as_str(), name)
        invariant
            k <= entries@.len(),
            forall|i: int| 0 <= i < k ==> (#[trigger] entries@[i]).name@ != name@,
        decreases entries@.len() - k,
    {
        k = k + 1;
    }
    if k < entries.len() {
        entries.set(k, e);
        assert forall|other: Seq<char>| #[trigger]
            text_under(entries@, other) == if other == name@ {
                Some(value@)
            } else {
                text_under(before, other)
            } by {
            lemma_text_update(before, k as int, e, other);
        }
    } else {
        entries.push(e);
        assert(entries@.drop_last() =~= before);
    }
}

/// Reading back the place up to which an account has read its news gives what was kept.
pub proof fn law_cursor_round_trip(entries: Seq<NamedText>, cursor: Seq<char>)
    requires
        entries.len() == 2,
        entries[0].name@ == "get_updates_buf"@,
        entries[0].value@ == cursor,
        entries[1].name@ == "updated_at_ms"@,
    ensures
        text_under(entries, "get_updates_buf"@) == Some(cursor),
{
    reveal_strlit("get_updates_buf");
    reveal_strlit("updated_at_ms");
    assert("get_updates_buf"@[0] == 'g' && "updated_at_ms"@[0] == 'u');
    reveal_with_fuel(text_under, 3);
}

impl Clone for WeixinAccountRuntimeState {
    fn clone(&self) -> (r: Self)
        ensures
            r == *self,
    {
        WeixinAccountRuntimeState {
            running: self.running,
            last_start_at_ms: self.last_start_at_ms,
            last_event_at_ms: self.last_event_at_ms,
            last_inbound_at_ms: self.last_inbound_at_ms,
            last_restart_at_ms: self.last_restart_at_ms,
            paused_until_ms: self.paused_until_ms,
            last_error: self.last_error.clone(),
        }
    }
}

/// What is known of a monitor before anything has happened.
pub open spec fn idle() -> WeixinAccountRuntimeState {
    WeixinAccountRuntimeState {
        running: false,
        last_start_at_ms: None,
        last_event_at_ms: None,
        last_inbound_at_ms: None,
        last_restart_at_ms: None,
        paused_until_ms: None,
        last_error: None,
    }
}

impl Default for WeixinAccountRuntimeState {
    /// Nothing has happened yet.
    fn default() -> (r: Self)
        ensures
            r == idle(),
    {
        WeixinAccountRuntimeState {
            running: false,
            last_start_at_ms: None,
            last_event_at_ms: None,
            last_inbound_at_ms: None,
            last_restart_at_ms: None,
            paused_until_ms: None,
            last_error: None,
        }
    }
}

/// What is known of the monitor of one account.
#[derive(Debug)]
pub struct RuntimeEntry {
    pub account_id: String,
    pub state: WeixinAccountRuntimeState,
}

/// Where the channel keeps its files, and what is known of all monitors.
#[derive(Debug)]
pub struct WeixinStore {
    pub state_dir: String,
    pub entries: Vec<RuntimeEntry>,
}

/// What is known of the monitor of an account; of an account never heard of, that it is idle.
pub open spec fn runtime_of(entries: Seq<RuntimeEntry>, id: Seq<char>) -> WeixinAccountRuntimeState
    decreases entries.len(),
{
    if entries.len() == 0 {
        idle()
    } else if entries[0].account_id@ == id {
        entries[0].state
    } else {
        runtime_of(entries.skip(1), id)
    }
}

proof fn lemma_runtime_at(entries: Seq<RuntimeEntry>, k: int, id: Seq<char>)
    requires
        0 <= k <= entries.len(),
        forall|i: int| 0 <= i < k ==> (#[trigger] entries[i]).account_id@ != id,
    ensures
        k < entries.len() && entries[k].account_id@ == id ==> runtime_of(entries, id)
            == entries[k].state,
        k == entries.len() ==> runtime_of(entries, id) == idle(),
    decreases k,
{
    if k > 0 {
        let rest = entries.skip(1);
        assert forall|i: int| 0 <= i < k - 1 implies (#[trigger] rest[i]).account_id@ != id by {
            assert(rest[i] == entries[i + 1]);
        }
        lemma_runtime_at(rest, k - 1, id);
    }
}

proof fn lemma_runtime_update(entries: Seq<RuntimeEntry>, k: int, e: RuntimeEntry, id: Seq<char>)
    requires
        0 <= k < entries.len(),
        e.account_id@ == entries[k].account_id@,
        id != e.account_id@,
    ensures
        runtime_of(entries.update(k, e), id) == runtime_of(entries, id),
    decreases entries.len(),
{
    let us = entries.update(k, e);
    if k > 0 {
        assert(us.skip(1) =~= entries.skip(1).update(k - 1, e));
        lemma_runtime_update(entries.skip(1), k - 1, e, id);
    } else {
        assert(us.skip(1) =~= entries.skip(1));
    }
}

proof fn lemma_runtime_push(entries: Seq<RuntimeEntry>, e: RuntimeEntry, id: Seq<char>)
    requires
        id != e.account_id@,
    ensures
        runtime_of(entries.push(e), id) == runtime_of(entries, id),
    decreases entries.len(),
{
    let us = entries.push(e);
    if entries.len() > 0 {
        assert(us.skip(1) =~= entries.skip(1).push(e));
        lemma_runtime_push(entries.skip(1), e, id);
    } else {
        assert(us.skip(1) =~= Seq::empty());
        reveal_with_fuel(runtime_of, 2);
    }
}

impl WeixinStore {
    /// A store of files in a directory; nothing is known of any monitor.
    pub fn new(state_dir: String) -> (r: Self)
        ensures
            r.state_dir == state_dir,
            forall|id: Seq<char>| #[trigger] r.of(id) == idle(),
    {
        WeixinStore { state_dir, entries: Vec::new() }
    }

    /// What is known of the monitor of an account.
    pub open spec fn of(&self, id: Seq<char>) -> WeixinAccountRuntimeState {
        runtime_of(self.entries@, id)
    }

    fn find(&self, id: &str) -> (k: usize)
        ensures
            k <= self.entries@.len(),
            k < self.entries@.len() ==> self.entries@[k as int].account_id@ == id@,
            forall|i: int| 0 <= i < k ==> (#[trigger] self.entries@[i]).account_id@ != id@,
    {
        let mut k: usize = 0;
        while k < self.entries.len() && !text::str_eq(self.entries[k].account_id.as_str(), id)
            invariant
                k <= self.entries@.len(),
                forall|i: int| 0 <= i < k ==> (#[trigger] self.entries@[i]).account_id@ != id@,
            decreases self.entries@.len() - k,
        {
            k = k + 1;
        }
        k
    }

    /// What is known of the monitor of an account.
    pub fn load_runtime_state(&self, account_id: &str) -> (r: WeixinAccountRuntimeState)
        ensures
            r == self.of(account_id@),
    {
        let k: usize = self.find(account_id);
        proof {
            lemma_runtime_at(self.entries@, k as int, account_id@);
        }
        if k < self.entries.len() {
            self.entries[k].state.clone()
        } else {
            WeixinAccountRuntimeState::default()
        }
    }

    /// Replaces what is known of the monitor of an account.
    pub fn set_runtime_state(&mut self, account_id: &str, state: WeixinAccountRuntimeState)
        ensures
            final(self).state_dir == old(self).state_dir,
            final(self).of(account_id@) == state,
            forall|id: Seq<char>|
                id != account_id@ ==> #[trigger] final(self).of(id) == old(self).of(id),
    {
        let k: usize = self.find(account_id);
        let ghost before = self.entries@;
        let e = RuntimeEntry { account_id: account_id.to_owned(), state };
        if k < self.entries.len() {
            self.entries.set(k, e);
            proof {
                lemma_runtime_at(self.entries@, k as int, account_id@);
                assert forall|id: Seq<char>| id != account_id@ implies #[trigger] self.of(id)
                    == runtime_of(before, id) by {
                    lemma_runtime_update(before, k as int, e, id);
                }
            }
        } else {
            self.entries.push(e);
            proof {
                lemma_runtime_at(self.entries@, k as int, account_id@);
                assert forall|id: Seq<char>| id != account_id@ implies #[trigger] self.of(id)
                    == runtime_of(before, id) by {
                    lemma_runtime_push(before, e, id);
                }
            }
        }
    }
}

/// Whether a summary tells of an account and its monitor.
pub open spec fn sums_up(
    s: WeixinAccountSummary,
    a: WeixinAccountRecord,
    state: WeixinAccountRuntimeState,
) -> bool {
    &&& s.account_id@ == a.account_id@
    &&& text::opt_view(s.linked_user_id) == text::opt_view(a.linked_user_id)
    &&& s.configured == !text::is_blank(a.bot_token@)
    &&& s.running == state.running
    &&& s.saved_at_ms == a.saved_at_ms
    &&& s.last_start_at_ms == state.last_start_at_ms
    &&& s.last_event_at_ms == state.last_event_at_ms
    &&& s.last_inbound_at_ms == state.last_inbound_at_ms
    &&& s.last_restart_at_ms == state.last_restart_at_ms
    &&& s.paused_until_ms == state.paused_until_ms
    &&& text::opt_view(s.last_error) == text::opt_view(state.last_error)
}

fn sum_up(a: &WeixinAccountRecord, state: WeixinAccountRuntimeState) -> (r: WeixinAccountSummary)
    ensures
        sums_up(r, *a, state),
{
    WeixinAccountSummary {
        account_id: a.account_id.clone(),
        linked_user_id: text::copy_opt(&a.linked_user_id),
        configured: !text::blank(a.bot_token.as_str()),
        running: state.running,
        saved_at_ms: a.saved_at_ms,
        last_start_at_ms: state.last_start_at_ms,
        last_event_at_ms: state.last_event_at_ms,
        last_inbound_at_ms: state.last_inbound_at_ms,
        last_restart_at_ms: state.last_restart_at_ms,
        paused_until_ms: state.paused_until_ms,
        last_error: state.last_error,
    }
}

/// How many accounts at the front of a list were saved no earlier than a time.
pub open spec fn place_in(accounts: Seq<WeixinAccountRecord>, saved_at_ms: u64) -> int
    decreases accounts.len(),
{
    if accounts.len() > 0 && accounts[0].saved_at_ms >= saved_at_ms {
        1 + place_in(accounts.skip(1), saved_at_ms)
    } else {
        0
    }
}

/// Accounts, the latest saved first; of those saved at one time, in their given order.
pub open spec fn by_time(accounts: Seq<WeixinAccountRecord>) -> Seq<WeixinAccountRecord>
    decreases accounts.len(),
{
    if accounts.len() == 0 {
        Seq::empty()
    } else {
        let rest = by_time(accounts.drop_last());
        rest.insert(place_in(rest, accounts.last().saved_at_ms), accounts.last())
    }
}

/// Whether accounts stand with the latest saved first.
pub open spec fn latest_first(accounts: Seq<WeixinAccountRecord>) -> bool {
    forall|i: int, j: int|
        0 <= i < j < accounts.len() ==> (#[trigger] accounts[i]).saved_at_ms >= (
        #[trigger] accounts[j]).saved_at_ms
}

proof fn lemma_place_in(accounts: Seq<WeixinAccountRecord>, t: u64, k: int)
    requires
        0 <= k <= accounts.len(),
        forall|i: int| 0 <= i < k ==> (#[trigger] accounts[i]).saved_at_ms >= t,
        k < accounts.len() ==> accounts[k].saved_at_ms < t,
    ensures
        place_in(accounts, t) == k,
    decreases k,
{
    if k > 0 {
        let rest = accounts.skip(1);
        assert forall|i: int| 0 <= i < k - 1 implies (#[trigger] rest[i]).saved_at_ms >= t by {
            assert(rest[i] == accounts[i + 1]);
        }
        lemma_place_in(rest, t, k - 1);
    }
}

proof fn lemma_place_bounds(accounts: Seq<WeixinAccountRecord>, t: u64)
    ensures
        0 <= place_in(accounts, t) <= accounts.len(),
        forall|i: int|
            0 <= i < place_in(accounts, t) ==> (#[trigger] accounts[i]).saved_at_ms >= t,
        place_in(accounts, t) < accounts.len() ==> accounts[place_in(accounts, t)].saved_at_ms < t,
    decreases accounts.len(),
{
    if accounts.len() > 0 && accounts[0].saved_at_ms >= t {
        let rest = accounts.skip(1);
        lemma_place_bounds(rest, t);
        assert forall|i: int| 0 <= i < place_in(accounts, t) implies (
        #[trigger] accounts[i]).saved_at_ms >= t by {
            if i > 0 {
                assert(rest[i - 1] == accounts[i]);
            }
        }
    }
}

/// Listing accounts keeps each of them exactly once and puts the latest saved first.
pub proof fn law_accounts_are_sorted(accounts: Seq<WeixinAccountRecord>)
    ensures
        latest_first(by_time(accounts)),
        by_time(accounts).to_multiset() == accounts.to_multiset(),
        by_time(accounts).len() == accounts.len(),
    decreases accounts.len(),
{
    if accounts.len() > 0 {
        law_accounts_are_sorted(accounts.drop_last());
        let rest = by_time(accounts.drop_last());
        let a = accounts.last();
        lemma_place_bounds(rest, a.saved_at_ms);
        let k = place_in(rest, a.saved_at_ms);
        let all = rest.insert(k, a);
        assert forall|i: int, j: int| 0 <= i < j < all.len() implies (#[trigger] all[i]).saved_at_ms
            >= (#[trigger] all[j]).saved_at_ms by {
            let i0 = if i < k {
                i
            } else {
                i - 1
            };
            let j0 = if j < k {
                j
            } else {
                j - 1
            };
            if i != k && j != k {
                assert(all[i] == rest[i0] && all[j] == rest[j0]);
            } else if j == k {
                assert(all[i] == rest[i]);
            } else {
                assert(all[j] == rest[j - 1]);
                assert(rest[k].saved_at_ms >= rest[j - 1].saved_at_ms);
            }
        }
        vstd::seq_lib::to_multiset_insert(rest, k, a);
        accounts.drop_last().to_multiset_ensures();
        assert(accounts.drop_last().push(a) =~= accounts);
    } else {
        assert(accounts =~= Seq::empty());
    }
}

/// Whether summaries tell of accounts, one for one.
pub open spec fn sum_up_all(
    ss: Seq<WeixinAccountSummary>,
    accounts: Seq<WeixinAccountRecord>,
    table: WeixinStore,
) -> bool {
    &&& ss.len() == accounts.len()
    &&& forall|i: int|
        0 <= i < ss.len() ==> sums_up(
            #[trigger] ss[i],
            accounts[i],
            table.of(accounts[i].account_id@),
        )
}

impl WeixinStore {
    /// Shows all accounts, the latest saved first.
    pub fn list_accounts(&self, accounts: &Vec<WeixinAccountRecord>) -> (r: Vec<
        WeixinAccountSummary,
    >)
        ensures
            sum_up_all(r@, by_time(accounts@), *self),
    {
        let mut out: Vec<WeixinAccountSummary> = Vec::new();
        let mut k: usize = 0;
        assert(accounts@.take(0) =~= Seq::empty());
        while k < accounts.len()
            invariant
                k <= accounts@.len(),
                sum_up_all(out@, by_time(accounts@.take(k as int)), *self),
            decreases accounts@.len() - k,
        {
            let a = &accounts[k];
            let ghost rest = by_time(accounts@.take(k as int));
            let summary = sum_up(a, self.load_runtime_state(a.account_id.as_str()));
            let mut at: usize = 0;
            while at < out.len() && out[at].saved_at_ms >= a.saved_at_ms
                invariant
                    at <= out@.len(),
                    sum_up_all(out@, rest, *self),
                    forall|i: int| 0 <= i < at ==> (#[trigger] rest[i]).saved_at_ms >= a.saved_at_ms,
                decreases out@.len() - at,
            {
                assert(sums_up(
                    out@[at as int],
                    rest[at as int],
                    self.of(rest[at as int].account_id@),
                ));
                at = at + 1;
            }
            proof {
                if at < out@.len() {
                    assert(sums_up(
                        out@[at as int],
                        rest[at as int],
                        self.of(rest[at as int].account_id@),
                    ));
                }
                lemma_place_in(rest, a.saved_at_ms, at as int);
                assert(accounts@.take(k + 1).drop_last() =~= accounts@.take(k as int));
                assert(accounts@.take(k + 1).last() == *a);
            }
            let ghost before = out@;
            out.insert(at, summary);
            proof {
                let all = rest.insert(at as int, *a);
                assert forall|i: int| 0 <= i < out@.len() implies sums_up(
                    #[trigger] out@[i],
                    all[i],
                    self.of(all[i].account_id@),
                ) by {
                    if i < at {
                        assert(out@[i] == before[i] && all[i] == rest[i]);
                    } else if i > at {
                        assert(out@[i] == before[i - 1] && all[i] == rest[i - 1]);
                    }
                }
            }
            k = k + 1;
        }
        assert(accounts@.take(k as int) =~= accounts@);
        out
    }
}

/// A context token that a user of an account has sent.
#[derive(Debug)]
pub struct TokenEntry {
    pub account_id: String,
    pub user_id: String,
    pub token: String,
}

/// The context tokens of all accounts, at most one for each user of an account.
#[derive(Debug)]
pub struct TokenTable {
    pub entries: Vec<TokenEntry>,
}

/// Whether no user of an account has two entries.
pub open spec fn users_unique(entries: Seq<TokenEntry>) -> bool {
    forall|i: int, j: int|
        0 <= i < j < entries.len() ==> !(entries[i].account_id@ == entries[j].account_id@
            && entries[i].user_id@ == entries[j].user_id@)
}

/// The token of a user of an account.
pub open spec fn token_of(
    entries: Seq<TokenEntry>,
    account: Seq<char>,
    user: Seq<char>,
) -> Option<Seq<char>>
    decreases entries.len(),
{
    if entries.len() == 0 {
        None
    } else if entries.last().account_id@ == account && entries.last().user_id@ == user {
        Some(entries.last().token@)
    } else {
        token_of(entries.drop_last(), account, user)
    }
}

/// The entries of all accounts but one.
pub open spec fn without_account(entries: Seq<TokenEntry>, account: Seq<char>) -> Seq<TokenEntry>
    decreases entries.len(),
{
    if entries.len() == 0 {
        Seq::empty()
    } else {
        let rest = without_account(entries.drop_last(), account);
        if entries.last().account_id@ == account {
            rest
        } else {
            rest.push(entries.last())
        }
    }
}

proof fn lemma_token_update(
    entries: Seq<TokenEntry>,
    k: int,
    e: TokenEntry,
    a: Seq<char>,
    u: Seq<char>,
)
    requires
        0 <= k < entries.len(),
        entries[k].account_id@ == e.account_id@,
        entries[k].user_id@ == e.user_id@,
        users_unique(entries),
    ensures
        token_of(entries.update(k, e), a, u) == if a == e.account_id@ && u == e.user_id@ {
            Some(e.token@)
        } else {
            token_of(entries, a, u)
        },
    decreases entries.len(),
{
    let us = entries.update(k, e);
    if k == entries.len() - 1 {
        assert(us.drop_last() =~= entries.drop_last());
    } else {
        assert(us.drop_last() =~= entries.drop_last().update(k, e));
        lemma_token_update(entries.drop_last(), k, e, a, u);
    }
}

proof fn lemma_without_account_unique(entries: Seq<TokenEntry>, account: Seq<char>)
    requires
        users_unique(entries),
    ensures
        users_unique(without_account(entries, account)),
        forall|i: int|
            0 <= i < without_account(entries, account).len() ==> exists|j: int|
                0 <= j < entries.len() && (#[trigger] without_account(entries, account)[i])
                    == #[trigger] entries[j],
    decreases entries.len(),
{
    if entries.len() > 0 {
        let front = entries.drop_last();
        lemma_without_account_unique(front, account);
        let rest = without_account(front, account);
        let all = without_account(entries, account);
        let last = entries.len() - 1;
        assert forall|i: int, j: int| 0 <= i < j < all.len() implies !(all[i].account_id@
            == all[j].account_id@ && all[i].user_id@ == all[j].user_id@) by {
            assert(all[i] == rest[i]);
            let o = choose|o: int| 0 <= o < front.len() && rest[i] == #[trigger] front[o];
            assert(entries[o] == front[o]);
            if j < rest.len() {
                assert(all[j] == rest[j]);
            } else {
                assert(all[j] == entries[last]);
            }
        }
        assert forall|i: int| 0 <= i < all.len() implies exists|j: int|
            0 <= j < entries.len() && (#[trigger] all[i]) == #[trigger] entries[j] by {
            if i < rest.len() {
                assert(all[i] == rest[i]);
                let o = choose|o: int| 0 <= o < front.len() && rest[i] == #[trigger] front[o];
                assert(entries[o] == front[o]);
            } else {
                assert(all[i] == entries[last]);
            }
        }
    }
}

proof fn lemma_without_account(
    entries: Seq<TokenEntry>,
    account: Seq<char>,
    a: Seq<char>,
    u: Seq<char>,
)
    ensures
        token_of(without_account(entries, account), a, u) == if a == account {
            None
        } else {
            token_of(entries, a, u)
        },
    decreases entries.len(),
{
    if entries.len() > 0 {
        lemma_without_account(entries.drop_last(), account, a, u);
        let rest = without_account(entries.drop_last(), account);
        assert(rest.push(entries.last()).drop_last() =~= rest);
    }
}

impl TokenTable {
    /// The token of a user of an account.
    pub open spec fn of(&self, account: Seq<char>, user: Seq<char>) -> Option<Seq<char>> {
        token_of(self.entries@, account, user)
    }

    /// The table's invariant.
    pub open spec fn wf(&self) -> bool {
        users_unique(self.entries@)
    }

    /// Remembers the token of a user of an account, in place of an earlier one.
    pub fn set_context_token(&mut self, account_id: &str, user_id: &str, token: &str)
        requires
            old(self).wf(),
        ensures
            final(self).wf(),
            forall|a: Seq<char>, u: Seq<char>| #[trigger]
                final(self).of(a, u) == if a == account_id@ && u == user_id@ {
                    Some(token@)
                } else {
                    old(self).of(a, u)
                },
    {
        let ghost before = self.entries@;
        let e = TokenEntry {
            account_id: account_id.to_owned(),
            user_id: user_id.to_owned(),
            token: token.to_owned(),
        };
        let mut k: usize = 0;
        while k < self.entries.len() && !(text::str_eq(
            self.entries[k].account_id.as_str(),
            account_id,
        ) && text::str_eq(self.entries[k].user_id.as_str(), user_id))
            invariant
                k <= self.entries@.len(),
                forall|i: int|
                    0 <= i < k ==> !((#[trigger] self.entries@[i]).account_id@ == account_id@
                        && self.entries@[i].user_id@ == user_id@),
            decreases self.entries@.len() - k,
        {
            k = k + 1;
        }
        if k < self.entries.len() {
            self.entries.set(k, e);
            assert forall|a: Seq<char>, u: Seq<char>| #[trigger]
                self.of(a, u) == if a == account_id@ && u == user_id@ {
                    Some(token@)
                } else {
                    token_of(before, a, u)
                } by {
                lemma_token_update(before, k as int, e, a, u);
            }
        } else {
            self.entries.push(e);
            assert(self.entries@.drop_last() =~= before);
        }
    }

    /// The token of a user of an account.
    pub fn get_context_token(&self, account_id: &str, user_id: &str) -> (r: Option<String>)
        ensures
            text::opt_view(r) == self.of(account_id@, user_id@),
    {
        let mut i: usize = self.entries.len();
        assert(self.entries@.take(i as int) =~= self.entries@);
        while i > 0
            invariant
                i <= self.entries@.len(),
                token_of(self.entries@, account_id@, user_id@) == token_of(
                    self.entries@.take(i as int),
                    account_id@,
                    user_id@,
                ),
            decreases i,
        {
            assert(self.entries@.take(i as int).drop_last() =~= self.entries@.take(i - 1));
            assert(self.entries@.take(i as int).last() == self.entries@[i - 1]);
            let e = &self.entries[i - 1];
            if text::str_eq(e.account_id.as_str(), account_id) && text::str_eq(
                e.user_id.as_str(),
                user_id,
            ) {
                return Some(e.token.clone());
            }
            i = i - 1;
        }
        None
    }

    fn forget_account(&mut self, account_id: &str)
        ensures
            final(self).entries@ == without_account(old(self).entries@, account_id@),
    {
        let mut kept: Vec<TokenEntry> = Vec::new();
        let mut i: usize = 0;
        assert(self.entries@.take(0) =~= Seq::empty());
        while i < self.entries.len()
            invariant
                i <= self.entries@.len(),
                kept@ == without_account(self.entries@.take(i as int), account_id@),
            decreases self.entries@.len() - i,
        {
            let e = &self.entries[i];
            assert(self.entries@.take(i + 1).drop_last() =~= self.entries@.take(i as int));
            if !text::str_eq(e.account_id.as_str(), account_id) {
                kept.push(
                    TokenEntry {
                        account_id: e.account_id.clone(),
                        user_id: e.user_id.clone(),
                        token: e.token.clone(),
                    },
                );
            }
            i = i + 1;
        }
        assert(self.entries@.take(i as int) =~= self.entries@);
        self.entries = kept;
    }

    /// Takes over the tokens of an account as they were kept, in place of what is remembered.
    pub fn load_context_tokens(&mut self, account_id: &str, tokens: &Vec<NamedText>)
        requires
            old(self).wf(),
        ensures
            final(self).wf(),
            forall|a: Seq<char>, u: Seq<char>| #[trigger]
                final(self).of(a, u) == if a == account_id@ {
                    text_under(tokens@, u)
                } else {
                    old(self).of(a, u)
                },
    {
        let ghost before = self.entries@;
        self.forget_account(account_id);
        proof {
            lemma_without_account_unique(before, account_id@);
        }
        let mut i: usize = 0;
        assert(tokens@.take(0) =~= Seq::empty());
        assert forall|a: Seq<char>, u: Seq<char>| #[trigger]
            self.of(a, u) == if a == account_id@ {
                text_under(tokens@.take(0), u)
            } else {
                token_of(before, a, u)
            } by {
            lemma_without_account(before, account_id@, a, u);
        }
        while i < tokens.len()
            invariant
                i <= tokens@.len(),
                self.wf(),
                forall|a: Seq<char>, u: Seq<char>| #[trigger]
                    self.of(a, u) == if a == account_id@ {
                        text_under(tokens@.take(i as int), u)
                    } else {
                        token_of(before, a, u)
                    },
            decreases tokens@.len() - i,
        {
            assert(tokens@.take(i + 1).drop_last() =~= tokens@.take(i as int));
            assert(tokens@.take(i + 1).last() == tokens@[i as int]);
            self.set_context_token(
                account_id,
                tokens[i].name.as_str(),
                tokens[i].value.as_str(),
            );
            i = i + 1;
        }
        assert(tokens@.take(i as int) =~= tokens@);
    }

    /// The tokens of an account as they are kept, one for each user.
    pub fn context_tokens(&self, account_id: &str) -> (r: Vec<NamedText>)
        ensures
            names_unique(r@),
            forall|u: Seq<char>| #[trigger] text_under(r@, u) == self.of(account_id@, u),
    {
        let mut out: Vec<NamedText> = Vec::new();
        let mut i: usize = 0;
        assert(self.entries@.take(0) =~= Seq::empty());
        while i < self.entries.len()
            invariant
                i <= self.entries@.len(),
                names_unique(out@),
                forall|u: Seq<char>| #[trigger]
                    text_under(out@, u) == token_of(
                        self.entries@.take(i as int),
                        account_id@,
                        u,
                    ),
            decreases self.entries@.len() - i,
        {
            let e = &self.entries[i];
            assert(self.entries@.take(i + 1).drop_last() =~= self.entries@.take(i as int));
            assert(self.entries@.take(i + 1).last() == self.entries@[i as int]);
            if text::str_eq(e.account_id.as_str(), account_id) {
                put_text(&mut out, e.user_id.as_str(), e.token.as_str());
            }
            i = i + 1;
        }
        assert(self.entries@.take(i as int) =~= self.entries@);
        out
    }
}

impl Default for TokenTable {
    /// No token was sent yet.
    fn default() -> (r: Self)
        ensures
            r.wf(),
            forall|a: Seq<char>, u: Seq<char>| #[trigger] r.of(a, u) is None,
    {
        TokenTable { entries: Vec::new() }
    }
}

} // verus!
