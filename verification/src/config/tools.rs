//! Settings of the built-in tools.

use vstd::prelude::*;

verus! {

/// How the shell tool runs commands, and whether it is offered at all.
#[derive(Debug)]
pub struct ExecCommandToolConfig {
    pub enabled: bool,
    pub shell: String,
    pub timeout_secs: u64,
    pub max_output_chars: usize,
}

} // verus!
