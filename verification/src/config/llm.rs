//! Settings of the language model and of media translation.

use vstd::prelude::*;

verus! {

/// A provider of language models: its defaults, and the variables that configure it.
#[derive(Debug)]
pub struct LlmProvider {
    pub name: String,
    pub default_model: String,
    pub default_base_url: Option<String>,
    pub base_url_envs: Vec<String>,
    pub api_key_envs: Vec<String>,
}

/// The model in use.
#[derive(Debug)]
pub struct LlmConfig {
    pub provider: String,
    pub model: String,
    pub api_key: String,
    pub base_url: Option<String>,
}

/// The media translation service.
#[derive(Debug)]
pub struct MediaTranslateConfig {
    pub api_key: Option<String>,
    pub base_url: String,
    pub model: String,
}

} // verus!
