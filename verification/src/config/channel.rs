//! Settings of the message channels.

use vstd::prelude::*;
use vstd::string::*;

verus! {

/// The Feishu callback, and what its replies need.
#[derive(Debug)]
pub struct FeishuCallbackConfig {
    pub verification_token: Option<String>,
    pub encrypt_key: Option<String>,
    pub app_id: Option<String>,
    pub app_secret: Option<String>,
    pub open_base_url: String,
    pub require_mention: bool,
    pub audio_source_lang: Option<String>,
    pub audio_target_lang: String,
}

impl Default for FeishuCallbackConfig {
    /// Nothing is configured.
    fn default() -> (r: Self)
        ensures
            r.verification_token is None,
            r.encrypt_key is None,
            r.app_id is None,
            r.app_secret is None,
            r.open_base_url@ == Seq::<char>::empty(),
            !r.require_mention,
            r.audio_source_lang is None,
            r.audio_target_lang@ == Seq::<char>::empty(),
    {
        FeishuCallbackConfig {
            verification_token: None,
            encrypt_key: None,
            app_id: None,
            app_secret: None,
            open_base_url: String::new(),
            require_mention: false,
            audio_source_lang: None,
            audio_target_lang: String::new(),
        }
    }
}

/// The Weixin bot channel.
#[derive(Debug)]
pub struct WeixinChannelConfig {
    pub enabled: bool,
    pub base_url: String,
    pub cdn_base_url: String,
    pub state_dir: String,
    pub route_tag: Option<String>,
    pub ilink_app_id: String,
    pub bot_type: String,
    pub login_timeout_ms: u64,
    pub long_poll_timeout_ms: u64,
    pub retry_delay_ms: u64,
    pub backoff_delay_ms: u64,
    pub session_pause_minutes: u64,
    pub supervisor_interval_ms: u64,
    pub supervisor_stale_after_ms: u64,
    pub supervisor_restart_gap_ms: u64,
}

} // verus!
