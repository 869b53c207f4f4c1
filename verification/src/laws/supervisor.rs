//! What holds of the supervisor of the Weixin monitors.

use vstd::prelude::*;
use vstd::string::*;

use crate::channel::weixin::service::WeixinManager;
use crate::channel::weixin::store::WeixinStore;
use crate::channel::weixin::supervisor;
use crate::channel::weixin::types::WeixinAccountRuntimeState;
use crate::config::channel::WeixinChannelConfig;
use crate::number;
use crate::text;

verus! {

/// How long a monitor may be silent: as configured, else as long as four polls take and at least two
/// minutes.
pub proof fn law_silence_that_is_allowed(config: &WeixinChannelConfig, r: u64)
    requires
        call_ensures(supervisor::supervisor_stale_after_ms, (config,), r),
    ensures
        config.supervisor_stale_after_ms > 0 ==> r == config.supervisor_stale_after_ms,
        config.supervisor_stale_after_ms == 0 ==> {
            &&& r >= 120_000
            &&& r >= config.long_poll_timeout_ms * 4
            &&& r == 120_000 || r == config.long_poll_timeout_ms * 4
        },
{
}

/// How far two restarts lie apart: as configured, else as far as the configured delay and at least a
/// minute.
pub proof fn law_gap_between_restarts(config: &WeixinChannelConfig, r: u64)
    requires
        call_ensures(supervisor::supervisor_restart_gap_ms, (config,), r),
    ensures
        config.supervisor_restart_gap_ms > 0 ==> r == config.supervisor_restart_gap_ms,
        config.supervisor_restart_gap_ms == 0 ==> {
            &&& r >= 60_000
            &&& r >= config.backoff_delay_ms
            &&& r == 60_000 || r == config.backoff_delay_ms
        },
{
}

/// The supervisor looks as often as configured, but not more often than every five seconds.
pub proof fn law_interval_between_looks(config: &WeixinChannelConfig, r: u64)
    requires
        call_ensures(supervisor::supervisor_interval_ms, (config,), r),
    ensures
        r >= 5_000,
        r >= config.supervisor_interval_ms,
        r == 5_000 || r == config.supervisor_interval_ms,
{
}

/// A monitor that runs and had news less than the allowed silence ago is left alone, whenever it was
/// started.
pub proof fn law_monitor_with_news_is_left_alone(
    config: &WeixinChannelConfig,
    state: &WeixinAccountRuntimeState,
    now_ms: u64,
    silence: u64,
    r: Option<String>,
)
    requires
        call_ensures(
            supervisor::supervisor_restart_reason,
            (config, state, true, now_ms),
            r,
        ),
        call_ensures(supervisor::supervisor_stale_after_ms, (config,), silence),
        state.last_event_at_ms matches Some(t) && now_ms < t + silence,
    ensures
        r is None,
{
    if silence == 0 {
        law_silence_that_is_allowed(config, silence);
    }
}

/// A monitor that runs and does not pause is restarted once it had no news for the allowed silence
/// and the gap since its last restart has passed; the reason tells how long ago the news were.
pub proof fn law_silent_monitor_is_restarted(
    config: &WeixinChannelConfig,
    state: &WeixinAccountRuntimeState,
    now_ms: u64,
    silence: u64,
    gap: u64,
    r: Option<String>,
)
    requires
        call_ensures(
            supervisor::supervisor_restart_reason,
            (config, state, true, now_ms),
            r,
        ),
        call_ensures(supervisor::supervisor_stale_after_ms, (config,), silence),
        call_ensures(supervisor::supervisor_restart_gap_ms, (config,), gap),
        state.paused_until_ms matches Some(until) ==> until <= now_ms,
        state.last_restart_at_ms matches Some(t) ==> t + gap <= now_ms,
    ensures
        state.last_event_at_ms matches Some(t) ==> (t + silence <= now_ms ==> (
        r matches Some(reason) && reason@ == "stale monitor heartbeat for "@ + number::decimal(
            (now_ms - t) as nat,
        ) + " ms"@)),
        state.last_event_at_ms is None && state.last_start_at_ms is Some
            && state.last_start_at_ms->Some_0 + silence <= now_ms ==> (r matches Some(reason)
            && reason@ == "stale monitor heartbeat for "@ + number::decimal(
            (now_ms - state.last_start_at_ms->Some_0) as nat,
        ) + " ms"@),
{
}

/// A monitor that runs and never had news counts from its start; one that was never started either
/// is left alone.
pub proof fn law_new_monitor_is_left_alone(
    config: &WeixinChannelConfig,
    state: &WeixinAccountRuntimeState,
    now_ms: u64,
    silence: u64,
    r: Option<String>,
)
    requires
        call_ensures(
            supervisor::supervisor_restart_reason,
            (config, state, true, now_ms),
            r,
        ),
        call_ensures(supervisor::supervisor_stale_after_ms, (config,), silence),
        state.last_event_at_ms is None,
        state.last_start_at_ms matches Some(t) ==> now_ms < t + silence,
    ensures
        r is None,
{
    if silence == 0 {
        law_silence_that_is_allowed(config, silence);
    }
}

/// A monitor that was just restarted is left alone until the gap has passed, however silent.
pub proof fn law_restarted_monitor_gets_time(
    config: &WeixinChannelConfig,
    state: &WeixinAccountRuntimeState,
    now_ms: u64,
    gap: u64,
    r: Option<String>,
)
    requires
        call_ensures(
            supervisor::supervisor_restart_reason,
            (config, state, true, now_ms),
            r,
        ),
        call_ensures(supervisor::supervisor_restart_gap_ms, (config,), gap),
        state.last_restart_at_ms matches Some(t) && now_ms < t + gap,
    ensures
        r is None,
{
    if gap == 0 {
        law_gap_between_restarts(config, gap);
    }
}

/// A monitor that pauses is left alone, whether it runs or not; one that does not run is started
/// again at once.
pub proof fn law_missing_monitor_is_started(
    config: &WeixinChannelConfig,
    state: &WeixinAccountRuntimeState,
    task_running: bool,
    now_ms: u64,
    r: Option<String>,
)
    requires
        call_ensures(
            supervisor::supervisor_restart_reason,
            (config, state, task_running, now_ms),
            r,
        ),
    ensures
        state.paused_until_ms matches Some(until) ==> (now_ms < until ==> r is None),
        !task_running && (state.paused_until_ms matches Some(until) ==> until <= now_ms) ==> (
        r matches Some(reason) && reason@ == "monitor task is missing or already finished"@),
{
}

/// The manager decides by what is noted of the account that is asked about, and by its own settings.
pub proof fn law_manager_asks_about_the_account(
    manager: &WeixinManager,
    account_id: &str,
    state: &WeixinAccountRuntimeState,
    task_running: bool,
    now_ms: u64,
    a: Option<String>,
    b: Option<String>,
)
    requires
        call_ensures(
            WeixinManager::supervisor_restart_reason,
            (manager, account_id, task_running, now_ms),
            a,
        ),
        call_ensures(
            supervisor::supervisor_restart_reason,
            (&manager.api.config, state, task_running, now_ms),
            b,
        ),
        manager.store.of(account_id@) == *state,
    ensures
        text::opt_view(a) == text::opt_view(b),
{
}

/// What is noted of a monitor is noted of that account alone: that it was started, and when, which
/// ends a pause and an error.
pub proof fn law_start_is_noted(store: &mut WeixinStore, account_id: &str, now_ms: u64)
    requires
        call_ensures(WeixinStore::mark_runtime_started, (store, account_id, now_ms), ()),
    ensures
        ({
            let s = final(store).of(account_id@);
            let b = old(store).of(account_id@);
            &&& s.running
            &&& s.last_start_at_ms == Some(now_ms)
            &&& s.paused_until_ms is None
            &&& s.last_error is None
            &&& s.last_event_at_ms == b.last_event_at_ms
            &&& s.last_inbound_at_ms == b.last_inbound_at_ms
            &&& s.last_restart_at_ms == b.last_restart_at_ms
        }),
        forall|id: Seq<char>|
            id != account_id@ ==> #[trigger] final(store).of(id) == old(store).of(id),
{
}

/// News are noted with their time, and a message as such; they end a pause and an error, and leave
/// all else as it was.
pub proof fn law_news_are_noted(
    store: &mut WeixinStore,
    account_id: &str,
    inbound: bool,
    now_ms: u64,
)
    requires
        call_ensures(WeixinStore::mark_runtime_event, (store, account_id, inbound, now_ms), ()),
    ensures
        ({
            let s = final(store).of(account_id@);
            let b = old(store).of(account_id@);
            &&& s.last_event_at_ms == Some(now_ms)
            &&& inbound ==> s.last_inbound_at_ms == Some(now_ms)
            &&& !inbound ==> s.last_inbound_at_ms == b.last_inbound_at_ms
            &&& s.paused_until_ms is None
            &&& s.last_error is None
            &&& s.running == b.running
            &&& s.last_start_at_ms == b.last_start_at_ms
            &&& s.last_restart_at_ms == b.last_restart_at_ms
        }),
        forall|id: Seq<char>|
            id != account_id@ ==> #[trigger] final(store).of(id) == old(store).of(id),
{
}

/// An error is noted in its own words and changes nothing else.
pub proof fn law_error_is_noted(store: &mut WeixinStore, account_id: &str, message: String)
    requires
        call_ensures(WeixinStore::mark_runtime_error, (store, account_id, message), ()),
    ensures
        final(store).of(account_id@).last_error == Some(message),
        supervisor::same_but_error(final(store).of(account_id@), old(store).of(account_id@)),
        forall|id: Seq<char>|
            id != account_id@ ==> #[trigger] final(store).of(id) == old(store).of(id),
{
}

/// A monitor that stops runs no longer, and nothing else is noted.
pub proof fn law_stop_is_noted(store: &mut WeixinStore, account_id: &str)
    requires
        call_ensures(WeixinStore::mark_runtime_stopped, (store, account_id), ()),
    ensures
        ({
            let s = final(store).of(account_id@);
            let b = old(store).of(account_id@);
            &&& !s.running
            &&& s.last_start_at_ms == b.last_start_at_ms
            &&& s.last_event_at_ms == b.last_event_at_ms
            &&& s.last_inbound_at_ms == b.last_inbound_at_ms
            &&& s.last_restart_at_ms == b.last_restart_at_ms
            &&& s.paused_until_ms == b.paused_until_ms
            &&& s.last_error == b.last_error
        }),
        forall|id: Seq<char>|
            id != account_id@ ==> #[trigger] final(store).of(id) == old(store).of(id),
{
}

/// A pause is noted with its end, and nothing else is.
pub proof fn law_pause_is_noted(store: &mut WeixinStore, account_id: &str, until_ms: u64)
    requires
        call_ensures(WeixinStore::mark_runtime_paused_until, (store, account_id, until_ms), ()),
    ensures
        ({
            let s = final(store).of(account_id@);
            let b = old(store).of(account_id@);
            &&& s.paused_until_ms == Some(until_ms)
            &&& s.running == b.running
            &&& s.last_start_at_ms == b.last_start_at_ms
            &&& s.last_event_at_ms == b.last_event_at_ms
            &&& s.last_inbound_at_ms == b.last_inbound_at_ms
            &&& s.last_restart_at_ms == b.last_restart_at_ms
            &&& s.last_error == b.last_error
        }),
        forall|id: Seq<char>|
            id != account_id@ ==> #[trigger] final(store).of(id) == old(store).of(id),
{
}

/// A restart is noted with its time and its reason, and nothing else is.
pub proof fn law_restart_is_noted(
    store: &mut WeixinStore,
    account_id: &str,
    reason: &str,
    now_ms: u64,
)
    requires
        call_ensures(
            WeixinStore::mark_runtime_restart_requested,
            (store, account_id, reason, now_ms),
            (),
        ),
    ensures
        ({
            let s = final(store).of(account_id@);
            let b = old(store).of(account_id@);
            &&& s.last_restart_at_ms == Some(now_ms)
            &&& s.last_error matches Some(e) && e@ == "supervisor restart requested: "@ + reason@
            &&& s.running == b.running
            &&& s.last_start_at_ms == b.last_start_at_ms
            &&& s.last_event_at_ms == b.last_event_at_ms
            &&& s.last_inbound_at_ms == b.last_inbound_at_ms
            &&& s.paused_until_ms == b.paused_until_ms
        }),
        forall|id: Seq<char>|
            id != account_id@ ==> #[trigger] final(store).of(id) == old(store).of(id),
{
}

} // verus!
