//! What holds of the monitors that wait for news from Weixin.

use vstd::prelude::*;
use vstd::string::*;

use crate::channel::weixin::monitor;
use crate::channel::weixin::monitor::{
    ApiError, FailureOutcome, Monitor, MonitorStep, NewsOutcome,
};
use crate::channel::weixin::types::WeixinGetUpdatesResponse;
use crate::number;
use crate::text;

verus! {

/// A code of a response; a missing one counts as zero.
pub open spec fn code(c: Option<i64>) -> int {
    match c {
        Some(n) => n as int,
        None => 0,
    }
}

/// A monitor goes on from where news were read, or from the beginning, as patiently as configured.
pub proof fn law_monitor_goes_on_from_the_cursor(cursor: Option<String>, timeout_ms: u64, r: Monitor)
    requires
        call_ensures(Monitor::new, (cursor, timeout_ms), r),
    ensures
        cursor matches Some(c) ==> r.get_updates_buf@ == c@,
        cursor is None ==> r.get_updates_buf@.len() == 0,
        r.next_timeout_ms == timeout_ms,
        r.consecutive_failures == 0,
        r.paused_until_ms is None,
{
}

/// A pause is slept through to its end and no longer; else news are asked for, from where they were
/// read and for as long as was said.
pub proof fn law_pause_is_slept_through(m: &mut Monitor, now_ms: u64, r: MonitorStep)
    requires
        call_ensures(Monitor::next_step, (m, now_ms), r),
    ensures
        ({
            let pauses = old(m).paused_until_ms is Some && now_ms < old(m).paused_until_ms->Some_0;
            &&& pauses ==> (r matches MonitorStep::Sleep { ms } && now_ms + ms == old(
                m,
            ).paused_until_ms->Some_0)
            &&& !pauses ==> (r matches MonitorStep::Poll { get_updates_buf, timeout_ms }
                && get_updates_buf@ == old(m).get_updates_buf@ && timeout_ms == old(
                m,
            ).next_timeout_ms)
            &&& pauses ==> final(m).paused_until_ms == old(m).paused_until_ms
            &&& !pauses ==> final(m).paused_until_ms is None
        }),
        final(m).get_updates_buf@ == old(m).get_updates_buf@,
        final(m).next_timeout_ms == old(m).next_timeout_ms,
        final(m).consecutive_failures == old(m).consecutive_failures,
{
}

/// A session has expired exactly where one of the codes is minus fourteen.
pub proof fn law_expiry_is_recognized(p: &WeixinGetUpdatesResponse, r: bool)
    requires
        call_ensures(monitor::session_expired, (p,), r),
    ensures
        r <==> code(p.ret) == -14 || code(p.errcode) == -14,
{
}

/// An expired session is paused for as many minutes as configured; another error is noted with its
/// codes and its message, and stops nothing.
pub proof fn law_errors_are_told_apart(
    p: &WeixinGetUpdatesResponse,
    now_ms: u64,
    pause_minutes: u64,
    r: ApiError,
)
    requires
        call_ensures(monitor::handle_api_error, (p, now_ms, pause_minutes), r),
    ensures
        ({
            let expired = code(p.ret) == -14 || code(p.errcode) == -14;
            let failed = code(p.ret) != 0 || code(p.errcode) != 0;
            &&& expired ==> (r.pause_until_ms matches Some(t) && t == now_ms + pause_minutes * 60_000)
            &&& expired ==> (r.note matches Some(n) && n@ == "weixin session expired, pausing until "@
                + number::decimal((now_ms + pause_minutes * 60_000) as nat))
            &&& !expired ==> r.pause_until_ms is None
            &&& failed && !expired ==> (r.note matches Some(n) && n@
                == "weixin getupdates failed: ret="@ + number::signed_decimal(code(p.ret))
                + " errcode="@ + number::signed_decimal(code(p.errcode)) + " message="@
                + match p.errmsg {
                Some(m) => m@,
                None => "unknown weixin getupdates error"@,
            })
            &&& !failed ==> r.note is None
        }),
{
}

/// News count unless the session has expired; the place up to which they were read is to be kept
/// where they tell one, and the next poll is as patient as they ask.
pub proof fn law_news_are_taken_in(
    m: &mut Monitor,
    p: &WeixinGetUpdatesResponse,
    now_ms: u64,
    pause_minutes: u64,
    r: NewsOutcome,
    e: ApiError,
)
    requires
        call_ensures(Monitor::on_updates, (m, p, now_ms, pause_minutes), r),
        call_ensures(monitor::handle_api_error, (p, now_ms, pause_minutes), e),
    ensures
        ({
            let expired = code(p.ret) == -14 || code(p.errcode) == -14;
            &&& r.accepted <==> !expired
            &&& text::opt_view(r.error) == text::opt_view(e.note)
            &&& expired ==> final(m).paused_until_ms == e.pause_until_ms && r.cursor is None
            &&& !expired ==> final(m).paused_until_ms == old(m).paused_until_ms
            &&& !expired ==> match p.get_updates_buf {
                Some(c) => if c@.len() > 0 {
                    r.cursor matches Some(k) && k@ == c@
                } else {
                    r.cursor is None
                },
                None => r.cursor is None,
            }
        }),
        p.longpolling_timeout_ms matches Some(t) ==> final(m).next_timeout_ms == if t > 0 {
            t
        } else {
            old(m).next_timeout_ms
        },
        p.longpolling_timeout_ms is None ==> final(m).next_timeout_ms == old(m).next_timeout_ms,
        final(m).consecutive_failures == 0,
        final(m).get_updates_buf@ == old(m).get_updates_buf@,
{
}

/// A monitor goes on from a new place only once that place was kept.
pub proof fn law_only_what_was_kept_counts(
    m: &mut Monitor,
    cursor: String,
    outcome: Result<(), String>,
    r: Option<String>,
)
    requires
        call_ensures(Monitor::on_cursor_saved, (m, cursor, outcome), r),
    ensures
        outcome is Ok ==> final(m).get_updates_buf@ == cursor@ && r is None,
        outcome matches Err(e) ==> final(m).get_updates_buf@ == old(m).get_updates_buf@ && (
        r matches Some(n) && n@ == "failed to persist sync cursor: "@ + e@),
        final(m).next_timeout_ms == old(m).next_timeout_ms,
        final(m).consecutive_failures == old(m).consecutive_failures,
        final(m).paused_until_ms == old(m).paused_until_ms,
{
}

/// A failed poll is tried again after the short delay, the third in a row after the long one, and
/// then the count starts again.
pub proof fn law_third_failure_waits_longer(
    m: &mut Monitor,
    error: String,
    retry_ms: u64,
    backoff_ms: u64,
    r: FailureOutcome,
)
    requires
        call_ensures(Monitor::on_failure, (m, error, retry_ms, backoff_ms), r),
    ensures
        r.error@ == error@,
        old(m).consecutive_failures < 2 ==> r.sleep_ms == retry_ms
            && final(m).consecutive_failures == old(m).consecutive_failures + 1,
        old(m).consecutive_failures >= 2 ==> r.sleep_ms == backoff_ms
            && final(m).consecutive_failures == 0,
        final(m).get_updates_buf@ == old(m).get_updates_buf@,
        final(m).next_timeout_ms == old(m).next_timeout_ms,
        final(m).paused_until_ms == old(m).paused_until_ms,
{
}

} // verus!
