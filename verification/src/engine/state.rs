//! What the engine remembers while a turn runs.

use vstd::prelude::*;
use vstd::string::*;

use crate::text;
use std::collections::VecDeque;

verus! {

/// How many of the latest calls are remembered.
pub const RECENT_TOOL_SIGNATURE_WINDOW: usize = 4;

/// Counts of the turn, and the signatures of its latest calls, oldest first.
#[derive(Debug)]
pub struct TurnState {
    pub tool_calls_executed: usize,
    pub tool_errors: usize,
    pub recent_tool_signatures: VecDeque<String>,
}

/// The contents of a state.
#[verifier::ext_equal]
pub struct StateView {
    pub executed: nat,
    pub errors: nat,
    pub recent: Seq<Seq<char>>,
}

impl View for TurnState {
    type V = StateView;

    open spec fn view(&self) -> StateView {
        StateView {
            executed: self.tool_calls_executed as nat,
            errors: self.tool_errors as nat,
            recent: text::strings_view(self.recent_tool_signatures@),
        }
    }
}

impl Default for TurnState {
    /// Nothing has happened yet.
    fn default() -> (r: Self)
        ensures
            r@ == (StateView { executed: 0, errors: 0, recent: Seq::empty() }),
    {
        let r = TurnState {
            tool_calls_executed: 0,
            tool_errors: 0,
            recent_tool_signatures: VecDeque::new(),
        };
        assert(r@.recent =~= Seq::empty());
        r
    }
}

/// The remembered signatures after one more call: where the window is full the oldest one goes.
pub open spec fn remembered(recent: Seq<Seq<char>>, signature: Seq<char>) -> Seq<Seq<char>> {
    if recent.len() == RECENT_TOOL_SIGNATURE_WINDOW {
        recent.skip(1).push(signature)
    } else {
        recent.push(signature)
    }
}

/// The same call as the one just made.
pub open spec fn repeats(recent: Seq<Seq<char>>, signature: Seq<char>) -> bool {
    recent.len() > 0 && recent.last() == signature
}

/// The next step of two calls that take turns: after A, B, A another B.
pub open spec fn ping_pongs(recent: Seq<Seq<char>>, signature: Seq<char>) -> bool {
    let n = recent.len() as int;
    &&& n >= 3
    &&& recent[n - 3] == recent[n - 1]
    &&& recent[n - 2] == signature
    &&& recent[n - 3] != recent[n - 2]
}

impl TurnState {
    /// Remembers the signature of a call.
    pub fn push_tool_signature(&mut self, signature: String)
        ensures
            final(self)@ == (StateView {
                recent: remembered(old(self)@.recent, signature@),
                ..old(self)@
            }),
    {
        let ghost before = self@.recent;
        if self.recent_tool_signatures.len() == RECENT_TOOL_SIGNATURE_WINDOW {
            self.recent_tool_signatures.pop_front();
        }
        self.recent_tool_signatures.push_back(signature);
        assert(self@.recent =~= remembered(before, signature@));
    }

    /// Whether a call would repeat the one just made.
    pub fn would_repeat_exact(&self, signature: &str) -> (r: bool)
        ensures
            r == repeats(self@.recent, signature@),
    {
        let len: usize = self.recent_tool_signatures.len();
        len > 0 && text::str_eq(self.recent_tool_signatures[len - 1].as_str(), signature)
    }

    /// Whether a call would continue two calls that take turns.
    pub fn would_ping_pong(&self, signature: &str) -> (r: bool)
        ensures
            r == ping_pongs(self@.recent, signature@),
    {
        let len: usize = self.recent_tool_signatures.len();
        if len < 3 {
            return false;
        }
        let a = self.recent_tool_signatures[len - 3].as_str();
        let b = self.recent_tool_signatures[len - 2].as_str();
        let c = self.recent_tool_signatures[len - 1].as_str();
        text::str_eq(a, c) && text::str_eq(b, signature) && !text::str_eq(a, b)
    }
}

/// What is remembered after a sequence of calls.
pub open spec fn remembered_after(history: Seq<Seq<char>>) -> Seq<Seq<char>>
    decreases history.len(),
{
    if history.len() == 0 {
        Seq::empty()
    } else {
        remembered(remembered_after(history.drop_last()), history.last())
    }
}

/// After any sequence of calls exactly the latest ones are remembered, in order, up to the size of
/// the window.
pub proof fn law_window_holds_the_latest(history: Seq<Seq<char>>)
    ensures
        remembered_after(history) == if history.len() <= RECENT_TOOL_SIGNATURE_WINDOW {
            history
        } else {
            history.skip(history.len() - RECENT_TOOL_SIGNATURE_WINDOW)
        },
    decreases history.len(),
{
    if history.len() > 0 {
        law_window_holds_the_latest(history.drop_last());
        assert(history.drop_last().push(history.last()) =~= history);
        if history.len() > RECENT_TOOL_SIGNATURE_WINDOW {
            assert(remembered_after(history) =~= history.skip(
                history.len() - RECENT_TOOL_SIGNATURE_WINDOW,
            ));
        }
    } else {
        assert(history =~= Seq::empty());
    }
}

/// What is remembered is enough: a call repeats or takes turns with the remembered calls exactly
/// where it does so with all calls that were made.
pub proof fn law_window_is_enough(history: Seq<Seq<char>>, signature: Seq<char>)
    ensures
        repeats(remembered_after(history), signature) == repeats(history, signature),
        ping_pongs(remembered_after(history), signature) == ping_pongs(history, signature),
{
    law_window_holds_the_latest(history);
}

} // verus!
