//! What holds of the shell tool.

use vstd::prelude::*;
use vstd::string::*;

use crate::config::tools::ExecCommandToolConfig;
use crate::laws::text::{is_core, lemma_core};
use crate::number;
use crate::outside;
use crate::text;
use crate::tools;
use crate::tools::{ExecCommandArgs, ExecCommandResult, ExecOutcome, ExecPlan};

verus! {

proof fn lemma_trimming_shortens(s: Seq<char>)
    ensures
        text::trimmed(s).len() <= s.len(),
{
    lemma_core(s);
}

/// An output that is no longer than allowed is shown in full, character for character, but for the
/// white space around it.
pub proof fn law_short_output_is_shown_in_full(value: &str, max_chars: usize, r: String)
    requires
        call_ensures(tools::truncate_output, (value, max_chars), r),
        value@.len() <= max_chars,
    ensures
        exists|a: int, b: int| #[trigger] is_core(value@, a, b) && r@ == value@.subrange(a, b),
{
    lemma_core(value@);
    lemma_trimming_shortens(value@);
    assert(text::trimmed(value@).take(text::trimmed(value@).len() as int) =~= text::trimmed(value@));
}

/// Of an output that is longer than allowed the beginning is shown, without the white space around
/// the output, unchanged and as much as allowed, followed by three dots.
pub proof fn law_long_output_is_cut(value: &str, max_chars: usize, r: String)
    requires
        call_ensures(tools::truncate_output, (value, max_chars), r),
        value@.len() > max_chars,
    ensures
        exists|a: int, b: int| #[trigger]
            is_core(value@, a, b) && r@ == value@.subrange(
                a,
                if b - a <= max_chars {
                    b
                } else {
                    a + max_chars
                },
            ) + seq!['.', '.', '.'],
{
    lemma_core(value@);
    reveal_strlit("...");
    assert("..."@ =~= seq!['.', '.', '.']);
    let (a, b) = choose|a: int, b: int| #[trigger]
        is_core(value@, a, b) && text::trimmed(value@) == value@.subrange(a, b);
    let whole = value@.subrange(a, b);
    if b - a <= max_chars {
        assert(b - a == max_chars ==> whole.take(max_chars as int) =~= whole);
    } else {
        assert(whole.take(max_chars as int) =~= value@.subrange(a, a + max_chars));
    }
}

/// What a command printed is what is shown: standard output as standard output, standard error as
/// standard error, each read as text and cut on its own, beside the exit code of the command.
pub proof fn law_what_was_printed_is_shown(
    plan: &ExecPlan,
    workdir: &Option<String>,
    outcome: &ExecOutcome,
    r: ExecCommandResult,
    out: &str,
    err: &str,
    shown_out: String,
    shown_err: String,
)
    requires
        call_ensures(tools::finish_exec_command, (plan, workdir, outcome), r),
        call_ensures(tools::truncate_output, (out, plan.max_output_chars), shown_out),
        call_ensures(tools::truncate_output, (err, plan.max_output_chars), shown_err),
    ensures
        *outcome matches ExecOutcome::Finished { success, exit_code, stdout, stderr } ==> {
            &&& r.success == success
            &&& r.exit_code == exit_code
            &&& !r.timed_out
            &&& out@ == outside::lossy_utf8(stdout@) ==> r.stdout@ == shown_out@
            &&& err@ == outside::lossy_utf8(stderr@) ==> r.stderr@ == shown_err@
        },
        r.command@ == plan.command@,
        text::opt_view(r.workdir) == text::opt_view(*workdir),
{
}

/// A command that took too long did not succeed, has no exit code and printed nothing but how long
/// it was given.
pub proof fn law_late_command_is_told(
    plan: &ExecPlan,
    workdir: &Option<String>,
    outcome: &ExecOutcome,
    r: ExecCommandResult,
)
    requires
        call_ensures(tools::finish_exec_command, (plan, workdir, outcome), r),
    ensures
        r.timed_out <==> *outcome is TimedOut,
        *outcome is TimedOut ==> {
            &&& !r.success
            &&& r.exit_code is None
            &&& r.stdout@.len() == 0
            &&& r.stderr@ == "command timed out after "@ + number::decimal(
                plan.timeout_secs as nat,
            ) + "s"@
        },
{
}

/// A command is run exactly where it holds more than white space, trimmed; in the shell and the
/// directory that are asked for, unless they are blank; else in the configured shell, and nowhere in
/// particular.
pub proof fn law_command_runs_as_asked(
    input: &ExecCommandArgs,
    config: &ExecCommandToolConfig,
    r: Result<ExecPlan, String>,
)
    requires
        call_ensures(tools::plan_exec_command, (input, config), r),
    ensures
        r is Err <==> text::is_blank(input.cmd@),
        r matches Err(message) ==> message@ == "cmd must not be empty"@,
        r matches Ok(plan) ==> {
            &&& plan.command@ == text::trimmed(input.cmd@)
            &&& input.shell matches Some(shell) ==> (!text::is_blank(shell@) ==> plan.shell@
                == shell@)
            &&& (input.shell is None || text::is_blank(input.shell->Some_0@)) ==> plan.shell@
                == config.shell@
            &&& input.workdir matches Some(dir) ==> (!text::is_blank(dir@) ==> (
            plan.workdir matches Some(d) && d@ == dir@))
            &&& (input.workdir is None || text::is_blank(input.workdir->Some_0@)) ==> plan.workdir
                is None
        },
{
}

/// A command is given between one second and two minutes and may show between 128 and 20000
/// characters; within these bounds exactly what is asked for, or else configured.
pub proof fn law_limits_are_as_asked(
    input: &ExecCommandArgs,
    config: &ExecCommandToolConfig,
    r: Result<ExecPlan, String>,
)
    requires
        call_ensures(tools::plan_exec_command, (input, config), r),
        r is Ok,
    ensures
        1 <= r->Ok_0.timeout_secs <= 120,
        128 <= r->Ok_0.max_output_chars <= 20_000,
        ({
            let asked = match input.timeout_secs {
                Some(n) => n,
                None => config.timeout_secs,
            };
            &&& 1 <= asked <= 120 ==> r->Ok_0.timeout_secs == asked
            &&& asked > 120 ==> r->Ok_0.timeout_secs == 120
            &&& asked < 1 ==> r->Ok_0.timeout_secs == 1
        }),
        ({
            let asked = match input.max_output_chars {
                Some(n) => n,
                None => config.max_output_chars,
            };
            &&& 128 <= asked <= 20_000 ==> r->Ok_0.max_output_chars == asked
            &&& asked > 20_000 ==> r->Ok_0.max_output_chars == 20_000
            &&& asked < 128 ==> r->Ok_0.max_output_chars == 128
        }),
{
}

} // verus!
