//! Waiting for news of an account.

use vstd::prelude::*;
use vstd::string::*;

use crate::channel::weixin::api;
use crate::channel::weixin::types::WeixinGetUpdatesResponse;
use crate::config::env;
use crate::number;
use crate::text;

verus! {

/// The code by which the service tells that a session has expired.
pub const SESSION_EXPIRED_ERRCODE: i64 = -14;

/// How many failures in a row make a monitor wait longer.
pub const FAILURES_BEFORE_BACKOFF: usize = 3;

/// How a monitor stands.
#[derive(Debug)]
pub struct Monitor {
    /// Up to where news were read.
    pub get_updates_buf: String,
    /// How long the next poll may take.
    pub next_timeout_ms: u64,
    /// How many polls failed in a row.
    pub consecutive_failures: usize,
    /// Until when the monitor pauses.
    pub paused_until_ms: Option<u64>,
}

/// What a monitor does next.
#[derive(Debug)]
pub enum MonitorStep {
    /// Wait before looking again.
    Sleep { ms: u64 },
    /// Ask for news.
    Poll { get_updates_buf: String, timeout_ms: u64 },
}

/// What is done about news.
#[derive(Debug)]
pub struct NewsOutcome {
    /// An error to be noted, if any.
    pub error: Option<String>,
    /// Whether the news count: they are noted, and their messages handled.
    pub accepted: bool,
    /// Up to where news were read, to be kept.
    pub cursor: Option<String>,
}

/// What is done about a failed poll.
#[derive(Debug)]
pub struct FailureOutcome {
    pub error: String,
    pub sleep_ms: u64,
}

/// Whether the service reports an error.
pub open spec fn has_error(p: WeixinGetUpdatesResponse) -> bool {
    api::code_of(p.ret) != 0 || api::code_of(p.errcode) != 0
}

/// Whether the service reports that the session has expired.
pub open spec fn is_expired(p: WeixinGetUpdatesResponse) -> bool {
    api::code_of(p.ret) == SESSION_EXPIRED_ERRCODE || api::code_of(p.errcode)
        == SESSION_EXPIRED_ERRCODE
}

/// Tells whether the service reports that the session has expired.
pub fn session_expired(payload: &WeixinGetUpdatesResponse) -> (r: bool)
    ensures
        r == is_expired(*payload),
{
    api::code_or_zero(&payload.ret) == SESSION_EXPIRED_ERRCODE || api::code_or_zero(
        &payload.errcode,
    ) == SESSION_EXPIRED_ERRCODE
}

/// Until when a monitor pauses whose session has expired.
pub open spec fn pause_end(now_ms: u64, pause_minutes: u64) -> int {
    now_ms + pause_minutes * 60_000
}

/// What is noted of an error that the service reports.
pub open spec fn error_note(
    p: WeixinGetUpdatesResponse,
    now_ms: u64,
    pause_minutes: u64,
) -> Option<Seq<char>> {
    if !has_error(p) {
        None
    } else if is_expired(p) {
        Some(
            "weixin session expired, pausing until "@ + number::decimal(
                pause_end(now_ms, pause_minutes) as nat,
            ),
        )
    } else {
        Some(
            "weixin getupdates failed: ret="@ + number::signed_decimal(api::code_of(p.ret))
                + " errcode="@ + number::signed_decimal(api::code_of(p.errcode)) + " message="@
                + env::or_default(text::opt_view(p.errmsg), "unknown weixin getupdates error"@),
        )
    }
}

/// What is noted of an error, and until when the monitor pauses on its account.
#[derive(Debug)]
pub struct ApiError {
    pub note: Option<String>,
    pub pause_until_ms: Option<u64>,
}

/// Looks for an error that the service reports.
pub fn handle_api_error(payload: &WeixinGetUpdatesResponse, now_ms: u64, pause_minutes: u64) -> (r:
    ApiError)
    requires
        is_expired(*payload) ==> pause_end(now_ms, pause_minutes) <= u64::MAX,
    ensures
        text::opt_view(r.note) == error_note(*payload, now_ms, pause_minutes),
        match r.pause_until_ms {
            Some(t) => is_expired(*payload) && t == pause_end(now_ms, pause_minutes),
            None => !is_expired(*payload),
        },
{
    let ret: i64 = api::code_or_zero(&payload.ret);
    let errcode: i64 = api::code_or_zero(&payload.errcode);
    if ret == 0 && errcode == 0 {
        return ApiError { note: None, pause_until_ms: None };
    }
    if session_expired(payload) {
        let until: u64 = now_ms + pause_minutes * 60_000;
        return ApiError {
            note: Some(
                text::cat(
                    "weixin session expired, pausing until ",
                    number::decimal_text(until).as_str(),
                ),
            ),
            pause_until_ms: Some(until),
        };
    }
    let message = match &payload.errmsg {
        Some(m) => m.clone(),
        None => "unknown weixin getupdates error".to_owned(),
    };
    let mut note = text::cat4(
        "weixin getupdates failed: ret=",
        number::signed_decimal_text(ret).as_str(),
        " errcode=",
        number::signed_decimal_text(errcode).as_str(),
    );
    note.append(" message=");
    note.append(message.as_str());
    ApiError { note: Some(note), pause_until_ms: None }
}

/// How long the next poll may take, as the news tell.
pub open spec fn told_timeout(p: WeixinGetUpdatesResponse, current: u64) -> u64 {
    match p.longpolling_timeout_ms {
        Some(t) => if t > 0 {
            t
        } else {
            current
        },
        None => current,
    }
}

/// Up to where news were read, as they tell.
pub open spec fn told_cursor(p: WeixinGetUpdatesResponse) -> Option<Seq<char>> {
    match p.get_updates_buf {
        Some(c) => if c@.len() > 0 {
            Some(c@)
        } else {
            None
        },
        None => None,
    }
}

impl Monitor {
    /// The monitor's invariant: a third failure in a row is never left standing.
    pub open spec fn wf(&self) -> bool {
        self.consecutive_failures < FAILURES_BEFORE_BACKOFF
    }

    /// A monitor that goes on from where news were read, if that is known.
    pub fn new(cursor: Option<String>, long_poll_timeout_ms: u64) -> (r: Self)
        ensures
            r.wf(),
            r.get_updates_buf@ == env::or_default(text::opt_view(cursor), Seq::empty()),
            r.next_timeout_ms == long_poll_timeout_ms,
            r.consecutive_failures == 0,
            r.paused_until_ms is None,
    {
        Monitor {
            get_updates_buf: match cursor {
                Some(c) => c,
                None => String::new(),
            },
            next_timeout_ms: long_poll_timeout_ms,
            consecutive_failures: 0,
            paused_until_ms: None,
        }
    }

    /// Decides what to do next: a pause is slept through, then news are asked for.
    pub fn next_step(&mut self, now_ms: u64) -> (r: MonitorStep)
        requires
            old(self).wf(),
        ensures
            final(self).wf(),
            match old(self).paused_until_ms {
                Some(until) if now_ms < until => {
                    &&& r matches MonitorStep::Sleep { ms } && ms == until - now_ms
                    &&& *final(self) == *old(self)
                },
                _ => {
                    &&& r matches MonitorStep::Poll { get_updates_buf, timeout_ms }
                        && get_updates_buf@ == old(self).get_updates_buf@ && timeout_ms == old(
                        self,
                    ).next_timeout_ms
                    &&& *final(self) == (Monitor { paused_until_ms: None, ..*old(self) })
                },
            },
    {
        if let Some(until) = self.paused_until_ms {
            if now_ms < until {
                return MonitorStep::Sleep { ms: until - now_ms };
            }
            self.paused_until_ms = None;
        }
        MonitorStep::Poll {
            get_updates_buf: self.get_updates_buf.clone(),
            timeout_ms: self.next_timeout_ms,
        }
    }

    /// Takes in news. A session that has expired makes the monitor pause; other errors are noted
    /// and the news count.
    pub fn on_updates(
        &mut self,
        payload: &WeixinGetUpdatesResponse,
        now_ms: u64,
        pause_minutes: u64,
    ) -> (r: NewsOutcome)
        requires
            old(self).wf(),
            is_expired(*payload) ==> pause_end(now_ms, pause_minutes) <= u64::MAX,
        ensures
            final(self).wf(),
            final(self).get_updates_buf == old(self).get_updates_buf,
            final(self).next_timeout_ms == told_timeout(*payload, old(self).next_timeout_ms),
            final(self).consecutive_failures == 0,
            text::opt_view(r.error) == error_note(*payload, now_ms, pause_minutes),
            r.accepted == !is_expired(*payload),
            if is_expired(*payload) {
                &&& final(self).paused_until_ms matches Some(t) && t == pause_end(
                    now_ms,
                    pause_minutes,
                )
                &&& r.cursor is None
            } else {
                &&& final(self).paused_until_ms == old(self).paused_until_ms
                &&& text::opt_view(r.cursor) == told_cursor(*payload)
            },
    {
        if let Some(t) = payload.longpolling_timeout_ms {
            if t > 0 {
                self.next_timeout_ms = t;
            }
        }
        let error = handle_api_error(payload, now_ms, pause_minutes);
        self.consecutive_failures = 0;
        if let Some(until) = error.pause_until_ms {
            self.paused_until_ms = Some(until);
            return NewsOutcome { error: error.note, accepted: false, cursor: None };
        }
        let cursor = match &payload.get_updates_buf {
            Some(c) => if c.as_str().unicode_len() > 0 {
                Some(c.clone())
            } else {
                None
            },
            None => None,
        };
        NewsOutcome { error: error.note, accepted: true, cursor }
    }

    /// Takes in whether the place up to which news were read could be kept. Only what was kept is
    /// gone on from.
    pub fn on_cursor_saved(&mut self, cursor: String, outcome: Result<(), String>) -> (r: Option<
        String,
    >)
        requires
            old(self).wf(),
        ensures
            final(self).wf(),
            match outcome {
                Ok(()) => {
                    &&& *final(self) == (Monitor { get_updates_buf: cursor, ..*old(self) })
                    &&& r is None
                },
                Err(error) => {
                    &&& *final(self) == *old(self)
                    &&& text::opt_view(r) == Some("failed to persist sync cursor: "@ + error@)
                },
            },
    {
        match outcome {
            Ok(()) => {
                self.get_updates_buf = cursor;
                None
            },
            Err(error) => Some(text::cat("failed to persist sync cursor: ", error.as_str())),
        }
    }

    /// Takes in a failed poll: the third in a row makes the monitor wait longer and starts the
    /// count again.
    pub fn on_failure(&mut self, error: String, retry_delay_ms: u64, backoff_delay_ms: u64) -> (r:
        FailureOutcome)
        requires
            old(self).wf(),
        ensures
            final(self).wf(),
            r.error == error,
            if old(self).consecutive_failures + 1 >= FAILURES_BEFORE_BACKOFF {
                &&& r.sleep_ms == backoff_delay_ms
                &&& *final(self) == (Monitor { consecutive_failures: 0, ..*old(self) })
            } else {
                &&& r.sleep_ms == retry_delay_ms
                &&& *final(self) == (Monitor {
                    consecutive_failures: (old(self).consecutive_failures + 1) as usize,
                    ..*old(self)
                })
            },
    {
        let failures: usize = self.consecutive_failures + 1;
        if failures >= FAILURES_BEFORE_BACKOFF {
            self.consecutive_failures = 0;
            FailureOutcome { error, sleep_ms: backoff_delay_ms }
        } else {
            self.consecutive_failures = failures;
            FailureOutcome { error, sleep_ms: retry_delay_ms }
        }
    }
}

} // verus!
