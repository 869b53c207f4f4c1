//! Settings of the form extraction.

use vstd::prelude::*;

verus! {

/// Where the Markdown forms lie.
#[derive(Debug)]
pub struct FormConfig {
    pub markdown_dir: String,
}

} // verus!
