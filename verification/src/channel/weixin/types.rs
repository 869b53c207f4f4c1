//! What passes between the Weixin service and the channel.

use vstd::prelude::*;

verus! {

/// What a caller gets to begin a login.
#[derive(Debug)]
pub struct WeixinLoginStartResult {
    pub session_key: String,
    pub qr_code_url: Option<String>,
    pub qr_code_data_url: Option<String>,
    pub message: String,
}

/// How waiting for a login ended.
#[derive(Debug)]
pub struct WeixinLoginWaitResult {
    pub connected: bool,
    pub account_id: Option<String>,
    pub linked_user_id: Option<String>,
    pub message: String,
}

/// An account as it is kept.
#[derive(Debug)]
pub struct WeixinAccountRecord {
    pub account_id: String,
    pub bot_token: String,
    pub base_url: String,
    pub linked_user_id: Option<String>,
    pub saved_at_ms: u64,
}

/// An account as it is shown.
#[derive(Debug)]
pub struct WeixinAccountSummary {
    pub account_id: String,
    pub linked_user_id: Option<String>,
    pub configured: bool,
    pub running: bool,
    pub saved_at_ms: u64,
    pub last_start_at_ms: Option<u64>,
    pub last_event_at_ms: Option<u64>,
    pub last_inbound_at_ms: Option<u64>,
    pub last_restart_at_ms: Option<u64>,
    pub paused_until_ms: Option<u64>,
    pub last_error: Option<String>,
}

/// What is known of the monitor of an account.
#[derive(Debug)]
pub struct WeixinAccountRuntimeState {
    pub running: bool,
    pub last_start_at_ms: Option<u64>,
    pub last_event_at_ms: Option<u64>,
    pub last_inbound_at_ms: Option<u64>,
    pub last_restart_at_ms: Option<u64>,
    pub paused_until_ms: Option<u64>,
    pub last_error: Option<String>,
}

/// A QR code to be scanned.
#[derive(Debug)]
pub struct WeixinQrCodeResponse {
    pub qrcode: String,
    pub qrcode_img_content: String,
}

/// What has become of a QR code.
#[derive(Debug)]
pub struct WeixinQrStatusResponse {
    pub status: String,
    pub bot_token: Option<String>,
    pub ilink_bot_id: Option<String>,
    pub baseurl: Option<String>,
    pub ilink_user_id: Option<String>,
    pub redirect_host: Option<String>,
}

/// What every request carries.
#[derive(Debug)]
pub struct WeixinBaseInfo<'a> {
    pub channel_version: &'a str,
}

/// A request for news.
#[derive(Debug)]
pub struct WeixinGetUpdatesRequest<'a> {
    pub get_updates_buf: &'a str,
    pub base_info: WeixinBaseInfo<'a>,
}

/// A request that sends a message.
#[derive(Debug)]
pub struct WeixinSendMessageRequest<'a> {
    pub msg: WeixinOutboundMessage<'a>,
    pub base_info: WeixinBaseInfo<'a>,
}

/// A request for a place to upload a file to.
#[derive(Debug)]
pub struct WeixinGetUploadUrlRequest<'a> {
    pub filekey: &'a str,
    pub media_type: u8,
    pub to_user_id: &'a str,
    pub rawsize: usize,
    pub rawfilemd5: &'a str,
    pub filesize: usize,
    pub no_need_thumb: bool,
    pub aeskey: &'a str,
    pub base_info: WeixinBaseInfo<'a>,
}

/// A place to upload a file to.
#[derive(Debug)]
pub struct WeixinGetUploadUrlResponse {
    pub ret: Option<i64>,
    pub errcode: Option<i64>,
    pub errmsg: Option<String>,
    pub upload_full_url: Option<String>,
    pub upload_param: Option<String>,
}

/// News.
#[derive(Debug)]
pub struct WeixinGetUpdatesResponse {
    pub ret: Option<i64>,
    pub errcode: Option<i64>,
    pub errmsg: Option<String>,
    pub msgs: Vec<WeixinMessage>,
    pub get_updates_buf: Option<String>,
    pub longpolling_timeout_ms: Option<u64>,
}

/// A message that came in.
#[derive(Debug)]
pub struct WeixinMessage {
    pub message_id: Option<u64>,
    pub from_user_id: Option<String>,
    pub item_list: Vec<WeixinMessageItem>,
    pub context_token: Option<String>,
}

/// One item of a message that came in.
#[derive(Debug)]
pub struct WeixinMessageItem {
    pub item_type: u8,
    pub text_item: Option<WeixinTextItem>,
    pub voice_item: Option<WeixinVoiceItem>,
}

/// Text that came in.
#[derive(Debug)]
pub struct WeixinTextItem {
    pub text: Option<String>,
}

/// Speech that came in, written down.
#[derive(Debug)]
pub struct WeixinVoiceItem {
    pub text: Option<String>,
}

/// A message that goes out.
#[derive(Debug)]
pub struct WeixinOutboundMessage<'a> {
    pub from_user_id: &'a str,
    pub to_user_id: &'a str,
    pub client_id: &'a str,
    pub message_type: u8,
    pub message_state: u8,
    pub item_list: Vec<WeixinOutboundMessageItem<'a>>,
    pub context_token: Option<&'a str>,
}

/// One item of a message that goes out.
#[derive(Debug)]
pub struct WeixinOutboundMessageItem<'a> {
    pub item_type: u8,
    pub text_item: Option<WeixinOutboundTextItem<'a>>,
    pub voice_item: Option<WeixinOutboundVoiceItem<'a>>,
    pub file_item: Option<WeixinOutboundFileItem<'a>>,
}

/// Text that goes out.
#[derive(Debug)]
pub struct WeixinOutboundTextItem<'a> {
    pub text: &'a str,
}

/// Where an uploaded file lies, and how it is encrypted.
#[derive(Debug)]
pub struct WeixinOutboundCdnMedia<'a> {
    pub encrypt_query_param: &'a str,
    pub aes_key: &'a str,
    pub encrypt_type: Option<u8>,
}

/// Sound that goes out.
#[derive(Debug)]
pub struct WeixinOutboundVoiceItem<'a> {
    pub media: WeixinOutboundCdnMedia<'a>,
    pub voice_size: Option<usize>,
    pub encode_type: Option<u8>,
    pub bits_per_sample: Option<u8>,
    pub sample_rate: Option<u32>,
    pub playtime: Option<u64>,
}

/// A file that goes out.
#[derive(Debug)]
pub struct WeixinOutboundFileItem<'a> {
    pub media: WeixinOutboundCdnMedia<'a>,
    pub file_name: Option<&'a str>,
    pub md5: Option<&'a str>,
    pub len: Option<String>,
}

/// An uploaded file.
#[derive(Debug)]
pub struct WeixinUploadedFile {
    pub encrypt_query_param: String,
    pub aes_key: String,
    pub file_size: usize,
}

/// Uploaded sound.
#[derive(Debug)]
pub struct WeixinUploadedVoice {
    pub encrypt_query_param: String,
    pub aes_key: String,
}

/// A login that waits for its QR code to be scanned.
#[derive(Debug)]
pub struct WeixinActiveLogin {
    pub qrcode: String,
    pub qrcode_url: String,
    pub started_at_ms: u64,
    pub current_api_base_url: String,
}

} // verus!
