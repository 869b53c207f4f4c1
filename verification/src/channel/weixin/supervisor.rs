//! What is noted of the monitors, and when one is started again.

use vstd::prelude::*;
use vstd::string::*;

use crate::channel::weixin::login;
use crate::channel::weixin::store::WeixinStore;
use crate::channel::weixin::types::WeixinAccountRuntimeState;
use crate::config::channel::WeixinChannelConfig;
use crate::number;
use crate::text;

verus! {

/// The shortest time without news after which a monitor counts as stale, in milliseconds.
pub const MIN_STALE_AFTER_MS: u64 = 120_000;

/// How many polls a monitor may miss.
pub const STALE_WINDOW_MULTIPLIER: u64 = 4;

/// The shortest time between two restarts, in milliseconds.
pub const MIN_RESTART_GAP_MS: u64 = 60_000;

/// The shortest time between two looks at the monitors, in milliseconds.
pub const MIN_SUPERVISOR_INTERVAL_MS: u64 = 5_000;

/// Whether nothing but the noted error differs.
pub open spec fn same_but_error(
    a: WeixinAccountRuntimeState,
    b: WeixinAccountRuntimeState,
) -> bool {
    &&& a.running == b.running
    &&& a.last_start_at_ms == b.last_start_at_ms
    &&& a.last_event_at_ms == b.last_event_at_ms
    &&& a.last_inbound_at_ms == b.last_inbound_at_ms
    &&& a.last_restart_at_ms == b.last_restart_at_ms
    &&& a.paused_until_ms == b.paused_until_ms
}

impl WeixinStore {
    /// Notes that a monitor was started.
    pub fn mark_runtime_started(&mut self, account_id: &str, now_ms: u64)
        ensures
            final(self).of(account_id@) == (WeixinAccountRuntimeState {
                running: true,
                last_start_at_ms: Some(now_ms),
                paused_until_ms: None,
                last_error: None,
                ..old(self).of(account_id@)
            }),
            final(self).state_dir == old(self).state_dir,
            forall|id: Seq<char>|
                id != account_id@ ==> #[trigger] final(self).of(id) == old(self).of(id),
    {
        let mut state = self.load_runtime_state(account_id);
        state.running = true;
        state.last_start_at_ms = Some(now_ms);
        state.paused_until_ms = None;
        state.last_error = None;
        self.set_runtime_state(account_id, state);
    }

    /// Notes that news came, perhaps with a message.
    pub fn mark_runtime_event(&mut self, account_id: &str, inbound: bool, now_ms: u64)
        ensures
            final(self).of(account_id@) == (WeixinAccountRuntimeState {
                last_event_at_ms: Some(now_ms),
                paused_until_ms: None,
                last_error: None,
                last_inbound_at_ms: if inbound {
                    Some(now_ms)
                } else {
                    old(self).of(account_id@).last_inbound_at_ms
                },
                ..old(self).of(account_id@)
            }),
            final(self).state_dir == old(self).state_dir,
            forall|id: Seq<char>|
                id != account_id@ ==> #[trigger] final(self).of(id) == old(self).of(id),
    {
        let mut state = self.load_runtime_state(account_id);
        state.last_event_at_ms = Some(now_ms);
        state.paused_until_ms = None;
        state.last_error = None;
        if inbound {
            state.last_inbound_at_ms = Some(now_ms);
        }
        self.set_runtime_state(account_id, state);
    }

    /// Notes an error.
    pub fn mark_runtime_error(&mut self, account_id: &str, message: String)
        ensures
            final(self).of(account_id@) == (WeixinAccountRuntimeState {
                last_error: Some(message),
                ..old(self).of(account_id@)
            }),
            final(self).state_dir == old(self).state_dir,
            forall|id: Seq<char>|
                id != account_id@ ==> #[trigger] final(self).of(id) == old(self).of(id),
    {
        let mut state = self.load_runtime_state(account_id);
        state.last_error = Some(message);
        self.set_runtime_state(account_id, state);
    }

    /// Notes that a monitor pauses.
    pub fn mark_runtime_paused_until(&mut self, account_id: &str, paused_until_ms: u64)
        ensures
            final(self).of(account_id@) == (WeixinAccountRuntimeState {
                paused_until_ms: Some(paused_until_ms),
                ..old(self).of(account_id@)
            }),
            final(self).state_dir == old(self).state_dir,
            forall|id: Seq<char>|
                id != account_id@ ==> #[trigger] final(self).of(id) == old(self).of(id),
    {
        let mut state = self.load_runtime_state(account_id);
        state.paused_until_ms = Some(paused_until_ms);
        self.set_runtime_state(account_id, state);
    }

    /// Notes that a monitor has stopped.
    pub fn mark_runtime_stopped(&mut self, account_id: &str)
        ensures
            final(self).of(account_id@) == (WeixinAccountRuntimeState {
                running: false,
                ..old(self).of(account_id@)
            }),
            final(self).state_dir == old(self).state_dir,
            forall|id: Seq<char>|
                id != account_id@ ==> #[trigger] final(self).of(id) == old(self).of(id),
    {
        let mut state = self.load_runtime_state(account_id);
        state.running = false;
        self.set_runtime_state(account_id, state);
    }

    /// Notes that a monitor is to be started again, and why.
    pub fn mark_runtime_restart_requested(&mut self, account_id: &str, reason: &str, now_ms: u64)
        ensures
            same_but_error(
                final(self).of(account_id@),
                WeixinAccountRuntimeState {
                    last_restart_at_ms: Some(now_ms),
                    ..old(self).of(account_id@)
                },
            ),
            text::opt_view(final(self).of(account_id@).last_error) == Some(
                "supervisor restart requested: "@ + reason@,
            ),
            final(self).state_dir == old(self).state_dir,
            forall|id: Seq<char>|
                id != account_id@ ==> #[trigger] final(self).of(id) == old(self).of(id),
    {
        let mut state = self.load_runtime_state(account_id);
        state.last_restart_at_ms = Some(now_ms);
        state.last_error = Some(text::cat("supervisor restart requested: ", reason));
        self.set_runtime_state(account_id, state);
    }
}

/// After how long without news a monitor counts as stale.
pub open spec fn stale_after(config: WeixinChannelConfig) -> int {
    if config.supervisor_stale_after_ms > 0 {
        config.supervisor_stale_after_ms as int
    } else if config.long_poll_timeout_ms * STALE_WINDOW_MULTIPLIER > MIN_STALE_AFTER_MS {
        config.long_poll_timeout_ms * STALE_WINDOW_MULTIPLIER
    } else {
        MIN_STALE_AFTER_MS as int
    }
}

/// Finds after how long without news a monitor counts as stale.
pub fn supervisor_stale_after_ms(config: &WeixinChannelConfig) -> (r: u64)
    requires
        stale_after(*config) <= u64::MAX,
    ensures
        r == stale_after(*config),
{
    if config.supervisor_stale_after_ms > 0 {
        return config.supervisor_stale_after_ms;
    }
    let window: u64 = config.long_poll_timeout_ms * STALE_WINDOW_MULTIPLIER;
    if window > MIN_STALE_AFTER_MS {
        window
    } else {
        MIN_STALE_AFTER_MS
    }
}

/// How long lies between two restarts at least.
pub open spec fn restart_gap(config: WeixinChannelConfig) -> u64 {
    if config.supervisor_restart_gap_ms > 0 {
        config.supervisor_restart_gap_ms
    } else if config.backoff_delay_ms > MIN_RESTART_GAP_MS {
        config.backoff_delay_ms
    } else {
        MIN_RESTART_GAP_MS
    }
}

/// Finds how long lies between two restarts at least.
pub fn supervisor_restart_gap_ms(config: &WeixinChannelConfig) -> (r: u64)
    ensures
        r == restart_gap(*config),
{
    if config.supervisor_restart_gap_ms > 0 {
        config.supervisor_restart_gap_ms
    } else if config.backoff_delay_ms > MIN_RESTART_GAP_MS {
        config.backoff_delay_ms
    } else {
        MIN_RESTART_GAP_MS
    }
}

/// How long lies between two looks at the monitors.
pub fn supervisor_interval_ms(config: &WeixinChannelConfig) -> (r: u64)
    ensures
        r == if config.supervisor_interval_ms < MIN_SUPERVISOR_INTERVAL_MS {
            MIN_SUPERVISOR_INTERVAL_MS
        } else {
            config.supervisor_interval_ms
        },
{
    if config.supervisor_interval_ms < MIN_SUPERVISOR_INTERVAL_MS {
        MIN_SUPERVISOR_INTERVAL_MS
    } else {
        config.supervisor_interval_ms
    }
}

/// When a monitor was last heard of: its latest news, else its start.
pub open spec fn last_heard(state: WeixinAccountRuntimeState) -> Option<u64> {
    match state.last_event_at_ms {
        Some(t) => Some(t),
        None => state.last_start_at_ms,
    }
}

/// Whether a monitor pauses.
pub open spec fn is_paused(state: WeixinAccountRuntimeState, now_ms: u64) -> bool {
    state.paused_until_ms matches Some(until) && now_ms < until
}

/// Whether a monitor that runs has not been heard of for too long, and was not just restarted.
pub open spec fn is_stale(
    config: WeixinChannelConfig,
    state: WeixinAccountRuntimeState,
    now_ms: u64,
) -> bool {
    &&& last_heard(state) matches Some(t) && login::elapsed(now_ms, t) >= stale_after(config)
    &&& state.last_restart_at_ms matches Some(t) ==> login::elapsed(now_ms, t) >= restart_gap(
        config,
    )
}

/// Why a monitor is started again, if it is: one that pauses is left alone; one that does not run
/// is started; one that runs is restarted when it is stale.
pub open spec fn restart_reason(
    config: WeixinChannelConfig,
    state: WeixinAccountRuntimeState,
    task_running: bool,
    now_ms: u64,
) -> Option<Seq<char>> {
    if is_paused(state, now_ms) {
        None
    } else if !task_running {
        Some("monitor task is missing or already finished"@)
    } else if is_stale(config, state, now_ms) {
        Some(
            "stale monitor heartbeat for "@ + number::decimal(
                login::elapsed(now_ms, last_heard(state)->Some_0) as nat,
            ) + " ms"@,
        )
    } else {
        None
    }
}

/// Decides whether a monitor is started again, and why.
pub fn supervisor_restart_reason(
    config: &WeixinChannelConfig,
    state: &WeixinAccountRuntimeState,
    task_running: bool,
    now_ms: u64,
) -> (r: Option<String>)
    requires
        task_running && !is_paused(*state, now_ms) ==> stale_after(*config) <= u64::MAX,
    ensures
        text::opt_view(r) == restart_reason(*config, *state, task_running, now_ms),
{
    if let Some(until) = state.paused_until_ms {
        if now_ms < until {
            return None;
        }
    }
    if !task_running {
        return Some("monitor task is missing or already finished".to_owned());
    }
    let heard: u64 = match state.last_event_at_ms {
        Some(t) => t,
        None => match state.last_start_at_ms {
            Some(t) => t,
            None => return None,
        },
    };
    let silence: u64 = login::elapsed_ms(now_ms, heard);
    if silence < supervisor_stale_after_ms(config) {
        return None;
    }
    if let Some(t) = state.last_restart_at_ms {
        if login::elapsed_ms(now_ms, t) < supervisor_restart_gap_ms(config) {
            return None;
        }
    }
    Some(
        text::cat3(
            "stale monitor heartbeat for ",
            number::decimal_text(silence).as_str(),
            " ms",
        ),
    )
}

/// A running monitor is not restarted twice within the gap: the note of a restart keeps the
/// supervisor away until the gap has passed.
pub proof fn law_restarts_are_apart(
    config: WeixinChannelConfig,
    state: WeixinAccountRuntimeState,
    restarted_at_ms: u64,
    now_ms: u64,
)
    requires
        state.last_restart_at_ms == Some(restarted_at_ms),
        login::elapsed(now_ms, restarted_at_ms) < restart_gap(config),
    ensures
        restart_reason(config, state, true, now_ms) is None,
{
}

/// A monitor that pauses is never restarted, whether it runs or not.
pub proof fn law_pause_is_respected(
    config: WeixinChannelConfig,
    state: WeixinAccountRuntimeState,
    task_running: bool,
    now_ms: u64,
)
    requires
        is_paused(state, now_ms),
    ensures
        restart_reason(config, state, task_running, now_ms) is None,
{
}

} // verus!
