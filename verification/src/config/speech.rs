//! Settings of the speech synthesis.

use vstd::prelude::*;

verus! {

/// The speech synthesis service; `speed` and `gain` are the bits of 32-bit floats.
#[derive(Debug)]
pub struct SpeechSynthesisConfig {
    pub api_key: Option<String>,
    pub base_url: String,
    pub model: String,
    pub voice: Option<String>,
    pub response_format: String,
    pub sample_rate: Option<u32>,
    pub speed: u32,
    pub gain: u32,
    pub stream: bool,
}

} // verus!
