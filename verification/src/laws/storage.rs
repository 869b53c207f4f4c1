//! What holds of what the Weixin channel remembers.

use vstd::prelude::*;
use vstd::string::*;
use vstd::utf8::*;

use crate::channel::weixin::store;
use crate::channel::weixin::store::{Kept, NamedText, TokenTable, WeixinStore};
use crate::channel::weixin::types::{
    WeixinAccountRecord, WeixinAccountRuntimeState, WeixinAccountSummary,
};
use crate::encoding;
use crate::number;
use crate::text;

verus! {

/// Each thing that is kept of an account lies in a directory of its own, under the name of the
/// account in the URL-safe Base64 alphabet, as a JSON file.
pub proof fn law_each_thing_has_its_file(
    account_id: &str,
    account: String,
    sync: String,
    context: String,
    name: String,
)
    requires
        call_ensures(store::account_path, (account_id,), account),
        call_ensures(store::sync_path, (account_id,), sync),
        call_ensures(store::context_path, (account_id,), context),
        call_ensures(store::encode_component, (account_id,), name),
    ensures
        name@ == encoding::base64_of(encode_utf8(account_id@), true, false),
        account@ == "accounts"@ + "/"@ + name@ + ".json"@,
        sync@ == "sync"@ + "/"@ + name@ + ".json"@,
        context@ == "context"@ + "/"@ + name@ + ".json"@,
{
}

/// The directories are those of the files.
pub proof fn law_directories_are_those_of_the_files(kept: Kept, r: &str)
    requires
        call_ensures(store::kept_dir, (kept,), r),
    ensures
        kept is Account ==> r@ == "accounts"@,
        kept is Sync ==> r@ == "sync"@,
        kept is Context ==> r@ == "context"@,
{
}

/// The place up to which news were read is read back as it was kept, beside when that was.
pub proof fn law_cursor_is_read_back(
    cursor: &str,
    now_ms: u64,
    entries: Vec<NamedText>,
    r: Option<String>,
)
    requires
        call_ensures(store::sync_entries, (cursor, now_ms), entries),
        call_ensures(store::read_sync_cursor, (&entries,), r),
    ensures
        r matches Some(c) && c@ == cursor@,
        entries@.len() == 2,
        entries@[0].name@ == "get_updates_buf"@,
        entries@[1].name@ == "updated_at_ms"@,
        entries@[1].value@ == number::decimal(now_ms as nat),
{
    store::law_cursor_round_trip(entries@, cursor@);
}

/// The text under a name is that of the last entry of that name.
pub proof fn law_last_entry_counts(entries: &Vec<NamedText>, name: &str, r: Option<String>, k: int)
    requires
        call_ensures(store::find_text, (entries, name), r),
    ensures
        0 <= k < entries@.len() && entries@[k].name@ == name@ && (forall|i: int|
            k < i < entries@.len() ==> (#[trigger] entries@[i]).name@ != name@) ==> (
        r matches Some(v) && v@ == entries@[k].value@),
        (forall|i: int| 0 <= i < entries@.len() ==> (#[trigger] entries@[i]).name@ != name@)
            ==> r is None,
{
    lemma_last_entry(entries@, name@, k);
}

proof fn lemma_last_entry(entries: Seq<NamedText>, name: Seq<char>, k: int)
    ensures
        0 <= k < entries.len() && entries[k].name@ == name && (forall|i: int|
            k < i < entries.len() ==> (#[trigger] entries[i]).name@ != name) ==> store::text_under(
            entries,
            name,
        ) == Some(entries[k].value@),
        (forall|i: int| 0 <= i < entries.len() ==> (#[trigger] entries[i]).name@ != name)
            ==> store::text_under(entries, name) is None,
    decreases entries.len(),
{
    if entries.len() > 0 {
        let front = entries.drop_last();
        lemma_last_entry(front, name, k);
        assert forall|i: int| 0 <= i < front.len() implies front[i] == #[trigger] entries[i] by {}
        if entries.last().name@ != name {
            if forall|i: int| 0 <= i < entries.len() ==> (#[trigger] entries[i]).name@ != name {
                assert forall|i: int| 0 <= i < front.len() implies (#[trigger] front[i]).name@
                    != name by {
                    assert(entries[i].name@ != name);
                }
            }
            if 0 <= k < entries.len() && entries[k].name@ == name && (forall|i: int|
                k < i < entries.len() ==> (#[trigger] entries[i]).name@ != name) {
                assert forall|i: int| k < i < front.len() implies (#[trigger] front[i]).name@
                    != name by {
                    assert(entries[i].name@ != name);
                }
            }
        } else {
            let n = entries.len() - 1;
            assert(entries[n].name@ == name);
        }
    }
}

/// The context token of a user of an account is the one that was last set for that user of that
/// account; those of others do not change.
pub proof fn law_token_is_read_back(
    table: &mut TokenTable,
    account_id: &str,
    user_id: &str,
    token: &str,
    r: Option<String>,
)
    requires
        call_ensures(TokenTable::set_context_token, (table, account_id, user_id, token), ()),
        call_ensures(TokenTable::get_context_token, (&*final(table), account_id, user_id), r),
    ensures
        r matches Some(t) && t@ == token@,
        forall|a: Seq<char>, u: Seq<char>|
            a != account_id@ || u != user_id@ ==> #[trigger] final(table).of(a, u) == old(table).of(
                a,
                u,
            ),
{
    assert(final(table).of(account_id@, user_id@) == Some(token@));
}

/// What is kept of the tokens of an account is what is remembered of them when it is loaded again;
/// loading changes no other account.
pub proof fn law_tokens_survive_being_kept(
    source: &TokenTable,
    table: &mut TokenTable,
    account_id: &str,
    tokens: &Vec<NamedText>,
)
    requires
        call_ensures(TokenTable::context_tokens, (source, account_id), *tokens),
        call_ensures(TokenTable::load_context_tokens, (table, account_id, tokens), ()),
    ensures
        forall|u: Seq<char>| #[trigger]
            final(table).of(account_id@, u) == source.of(account_id@, u),
        forall|a: Seq<char>, u: Seq<char>|
            a != account_id@ ==> #[trigger] final(table).of(a, u) == old(table).of(a, u),
{
    assert forall|u: Seq<char>| #[trigger]
        final(table).of(account_id@, u) == source.of(account_id@, u) by {
        assert(store::text_under(tokens@, u) == source.of(account_id@, u));
    }
}

/// The monitor of an account of which nothing was noted does not run and has no history.
pub proof fn law_unknown_monitor_is_idle(
    state_dir: String,
    s: WeixinStore,
    account_id: &str,
    r: WeixinAccountRuntimeState,
)
    requires
        call_ensures(WeixinStore::new, (state_dir,), s),
        call_ensures(WeixinStore::load_runtime_state, (&s, account_id), r),
    ensures
        !r.running,
        r.last_start_at_ms is None,
        r.last_event_at_ms is None,
        r.last_inbound_at_ms is None,
        r.last_restart_at_ms is None,
        r.paused_until_ms is None,
        r.last_error is None,
        s.state_dir@ == state_dir@,
{
    assert(s.of(account_id@) == store::idle());
}

/// What is noted of a monitor is read back as it was noted, and only of that account.
pub proof fn law_notes_are_read_back(
    s: &mut WeixinStore,
    account_id: &str,
    state: WeixinAccountRuntimeState,
    r: WeixinAccountRuntimeState,
)
    requires
        call_ensures(WeixinStore::set_runtime_state, (s, account_id, state), ()),
        call_ensures(WeixinStore::load_runtime_state, (&*final(s), account_id), r),
    ensures
        r == state,
        forall|id: Seq<char>| id != account_id@ ==> #[trigger] final(s).of(id) == old(s).of(id),
{
}

/// Whether a summary tells of an account and of what is noted of its monitor.
pub open spec fn tells_of(
    s: WeixinAccountSummary,
    a: WeixinAccountRecord,
    state: WeixinAccountRuntimeState,
) -> bool {
    &&& s.account_id@ == a.account_id@
    &&& text::opt_view(s.linked_user_id) == text::opt_view(a.linked_user_id)
    &&& s.configured <==> !text::is_blank(a.bot_token@)
    &&& s.saved_at_ms == a.saved_at_ms
    &&& s.running == state.running
    &&& s.last_start_at_ms == state.last_start_at_ms
    &&& s.last_event_at_ms == state.last_event_at_ms
    &&& s.last_inbound_at_ms == state.last_inbound_at_ms
    &&& s.last_restart_at_ms == state.last_restart_at_ms
    &&& s.paused_until_ms == state.paused_until_ms
    &&& text::opt_view(s.last_error) == text::opt_view(state.last_error)
}

/// Every account is listed once, the latest saved first, with what is noted of its own monitor.
pub proof fn law_accounts_are_listed(
    s: &WeixinStore,
    accounts: &Vec<WeixinAccountRecord>,
    r: Vec<WeixinAccountSummary>,
)
    requires
        call_ensures(WeixinStore::list_accounts, (s, accounts), r),
    ensures
        exists|order: Seq<WeixinAccountRecord>|
            #![trigger order.to_multiset()]
            order.to_multiset() == accounts@.to_multiset() && r@.len() == order.len() && (forall|
                i: int,
            |
                0 <= i < r@.len() ==> tells_of(
                    #[trigger] r@[i],
                    order[i],
                    s.of(order[i].account_id@),
                )),
        r@.len() == accounts@.len(),
        forall|i: int, j: int|
            0 <= i < j < r@.len() ==> (#[trigger] r@[i]).saved_at_ms >= (#[trigger] r@[j]).saved_at_ms,
{
    let order = store::by_time(accounts@);
    store::law_accounts_are_sorted(accounts@);
    assert forall|i: int| 0 <= i < r@.len() implies tells_of(
        #[trigger] r@[i],
        order[i],
        s.of(order[i].account_id@),
    ) by {
        assert(store::sums_up(r@[i], order[i], s.of(order[i].account_id@)));
    }
    assert(order.to_multiset() == accounts@.to_multiset());
    assert forall|i: int, j: int| 0 <= i < j < r@.len() implies (#[trigger] r@[i]).saved_at_ms >= (
    #[trigger] r@[j]).saved_at_ms by {
        assert(tells_of(r@[i], order[i], s.of(order[i].account_id@)));
        assert(tells_of(r@[j], order[j], s.of(order[j].account_id@)));
        assert(order[i].saved_at_ms >= order[j].saved_at_ms);
    }
}

} // verus!
