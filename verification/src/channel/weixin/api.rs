//! Requests to the Weixin service, and how its responses are read.

use vstd::prelude::*;
use vstd::string::*;
use vstd::utf8::*;

use crate::channel::weixin::crypto;
use crate::channel::weixin::types::{
    WeixinBaseInfo, WeixinGetUpdatesRequest, WeixinGetUpdatesResponse, WeixinGetUploadUrlRequest,
    WeixinGetUploadUrlResponse, WeixinMessage, WeixinOutboundCdnMedia, WeixinOutboundFileItem,
    WeixinOutboundMessage, WeixinOutboundMessageItem, WeixinOutboundTextItem,
    WeixinOutboundVoiceItem, WeixinSendMessageRequest, WeixinUploadedFile, WeixinUploadedVoice,
};
use crate::config::channel::WeixinChannelConfig;
use crate::config::env;
use crate::encoding;
use crate::number;
use crate::number::NumeralError;
use crate::outside;
use crate::text;

verus! {

/// How long a request may take where nothing else is said, in milliseconds.
pub const DEFAULT_API_TIMEOUT_MS: u64 = 15_000;

/// How long an upload may take, in milliseconds.
pub const DEFAULT_CDN_TIMEOUT_MS: u64 = 30_000;

/// How long a request for a QR code may take, in milliseconds.
pub const QR_CODE_TIMEOUT_MS: u64 = 5_000;

/// Uploaded as a file.
pub const WEIXIN_UPLOAD_MEDIA_TYPE_FILE: u8 = 3;

/// Uploaded as sound.
pub const WEIXIN_UPLOAD_MEDIA_TYPE_VOICE: u8 = 4;

/// Sound as MP3.
pub const WEIXIN_VOICE_ENCODE_MP3: u8 = 7;

/// An uploaded file that is encrypted as a whole.
pub const WEIXIN_MEDIA_ENCRYPT_TYPE_PACK: u8 = 1;

/// One header of a request.
#[derive(Debug)]
pub struct HeaderLine {
    pub name: String,
    pub value: String,
}

impl View for HeaderLine {
    type V = (Seq<char>, Seq<char>);

    open spec fn view(&self) -> (Seq<char>, Seq<char>) {
        (self.name@, self.value@)
    }
}

/// The contents of a list of headers.
pub open spec fn headers_view(hs: Seq<HeaderLine>) -> Seq<(Seq<char>, Seq<char>)> {
    hs.map_values(|h: HeaderLine| h@)
}

fn push_header(hs: &mut Vec<HeaderLine>, name: &str, value: &str)
    ensures
        headers_view(final(hs)@) == headers_view(old(hs)@).push((name@, value@)),
{
    let ghost before = headers_view(hs@);
    let h = HeaderLine { name: name.to_owned(), value: value.to_owned() };
    hs.push(h);
    assert(headers_view(hs@) =~= before.push(h@));
}

/// A request, but for its body.
#[derive(Debug)]
pub struct ApiRequest {
    pub url: String,
    pub headers: Vec<HeaderLine>,
    pub timeout_ms: u64,
}

/// An endpoint below a base address.
pub open spec fn url_of(base_url: Seq<char>, endpoint: Seq<char>) -> Seq<char> {
    text::without_trailing(base_url, '/') + "/"@ + endpoint
}

fn endpoint_url(base_url: &str, endpoint: &str) -> (r: String)
    ensures
        r@ == url_of(base_url@, endpoint@),
{
    text::cat3(text::trim_end_matches(base_url, '/').as_str(), "/", endpoint)
}

/// The first of several numerals that is none, and why.
pub open spec fn first_bad_numeral(segments: Seq<Seq<char>>) -> Option<NumeralError>
    decreases segments.len(),
{
    if segments.len() == 0 {
        None
    } else {
        match number::unsigned_value(segments[0], u32::MAX as nat) {
            Err(e) => Some(e),
            Ok(_) => first_bad_numeral(segments.skip(1)),
        }
    }
}

/// The number at a place of a version; a missing one counts as zero.
pub open spec fn version_part(segments: Seq<Seq<char>>, i: int) -> nat {
    if i < segments.len() {
        number::unsigned_value(segments[i], u32::MAX as nat)->Ok_0
    } else {
        0
    }
}

/// A version as one number, a byte for each of its first three parts.
pub open spec fn version_number(segments: Seq<Seq<char>>) -> nat {
    version_part(segments, 0) % 256 * 0x1_0000 + version_part(segments, 1) % 256 * 0x100
        + version_part(segments, 2) % 256
}

/// What is wrong with a version, if anything.
pub open spec fn version_problem(version: Seq<char>) -> Option<Seq<char>> {
    match first_bad_numeral(text::split_at_each(version, '.')) {
        Some(e) => Some("invalid client version "@ + version + ": "@ + e.text()),
        None => None,
    }
}

/// Writes a version as one number.
pub fn build_client_version(version: &str) -> (r: Result<u32, String>)
    ensures
        match r {
            Ok(n) => version_problem(version@) is None && n == version_number(
                text::split_at_each(version@, '.'),
            ),
            Err(m) => version_problem(version@) == Some(m@),
        },
{
    let pieces = text::split_on(&text::chars_of(version), '.');
    let ghost all = text::pieces_view(pieces@);
    let mut parts: Vec<u64> = Vec::new();
    let mut i: usize = 0;
    assert(all.skip(0) =~= all);
    while i < pieces.len()
        invariant
            i <= pieces@.len(),
            all == text::pieces_view(pieces@),
            all == text::split_at_each(version@, '.'),
            parts@.len() == i,
            first_bad_numeral(all) == first_bad_numeral(all.skip(i as int)),
            forall|j: int|
                0 <= j < i ==> number::unsigned_value(all[j], u32::MAX as nat) == Ok::<
                    nat,
                    NumeralError,
                >(#[trigger] parts@[j] as nat),
        decreases pieces@.len() - i,
    {
        let ghost here = all.skip(i as int);
        assert(here[0] == all[i as int]);
        assert(here.skip(1) =~= all.skip(i + 1));
        let piece = text::string_of(&pieces[i]);
        match number::parse_unsigned(piece.as_str(), u32::MAX as u64) {
            Ok(n) => {
                parts.push(n);
            },
            Err(e) => {
                return Err(
                    text::cat4(
                        "invalid client version ",
                        version,
                        ": ",
                        e.message().as_str(),
                    ),
                );
            },
        }
        i = i + 1;
    }
    let major: u64 = if parts.len() > 0 {
        parts[0]
    } else {
        0
    };
    let minor: u64 = if parts.len() > 1 {
        parts[1]
    } else {
        0
    };
    let patch: u64 = if parts.len() > 2 {
        parts[2]
    } else {
        0
    };
    Ok((major % 256 * 0x1_0000 + minor % 256 * 0x100 + patch % 256) as u32)
}

/// The number that the first four bytes of a UUID stand for.
pub open spec fn uin_number(uuid: Seq<u8>) -> nat {
    (0x100_0000 * uuid[0] + 0x1_0000 * uuid[1] + 0x100 * uuid[2] + uuid[3]) as nat
}

/// The identifier that a request carries: a number, written out and encoded.
pub open spec fn uin_text(uuid: Seq<u8>) -> Seq<char> {
    encoding::base64_of(encode_utf8(number::decimal(uin_number(uuid))), false, true)
}

/// Writes the identifier that a request carries.
pub fn wechat_uin(uuid: &[u8; 16]) -> (r: String)
    ensures
        r@ == uin_text(uuid@),
{
    let n: u64 = 0x100_0000 * (uuid[0] as u64) + 0x1_0000 * (uuid[1] as u64) + 0x100 * (
    uuid[2] as u64) + uuid[3] as u64;
    let numeral = number::decimal_text(n);
    outside::base64_encode(numeral.as_str().as_bytes())
}

/// The headers of every request.
pub open spec fn common_header_lines(
    app_id: Seq<char>,
    version: nat,
    route_tag: Option<Seq<char>>,
) -> Seq<
    (Seq<char>, Seq<char>),
> {
    let lines = seq![
        ("iLink-App-Id"@, app_id),
        ("iLink-App-ClientVersion"@, number::decimal(version)),
    ];
    match route_tag {
        Some(tag) => lines.push(("SKRouteTag"@, tag)),
        None => lines,
    }
}

/// The headers of a request that is sent for an account.
pub open spec fn auth_header_lines(
    common: Seq<(Seq<char>, Seq<char>)>,
    token: Seq<char>,
    body_len: nat,
    uuid: Seq<u8>,
) -> Seq<(Seq<char>, Seq<char>)> {
    let lines = common + seq![
        ("AuthorizationType"@, "ilink_bot_token"@),
        ("X-WECHAT-UIN"@, uin_text(uuid)),
        ("content-length"@, number::decimal(body_len)),
    ];
    if text::is_blank(token) {
        lines
    } else {
        lines.push(("authorization"@, "Bearer "@ + text::trimmed(token)))
    }
}

/// The headers of a request with a body of JSON that is sent for an account.
pub open spec fn post_header_lines(
    common: Seq<(Seq<char>, Seq<char>)>,
    token: Seq<char>,
    body_len: nat,
    uuid: Seq<u8>,
) -> Seq<(Seq<char>, Seq<char>)> {
    auth_header_lines(common, token, body_len, uuid).push(
        ("content-type"@, "application/json"@),
    )
}

/// How the Weixin service is called.
#[derive(Debug)]
pub struct WeixinApiClient {
    pub config: WeixinChannelConfig,
    pub channel_version: String,
    pub client_version: String,
}

/// The name under which a message goes out.
pub open spec fn client_id_of(uuid: Seq<u8>) -> Seq<char> {
    "mimic-shrimp-rs-"@ + encoding::uuid_text(uuid)
}

/// Makes the name under which a message goes out.
pub fn make_client_id(uuid: &[u8; 16]) -> (r: String)
    ensures
        r@ == client_id_of(uuid@),
{
    text::cat("mimic-shrimp-rs-", outside::uuid_to_text(uuid).as_str())
}

/// Makes a fresh name under which a message goes out.
pub fn fresh_client_id() -> (r: String)
    ensures
        exists|uuid: Seq<u8>| encoding::is_uuid_v4(uuid) && r@ == client_id_of(uuid),
{
    let uuid = outside::new_uuid();
    make_client_id(&uuid)
}

impl WeixinApiClient {
    /// A client of the given version.
    pub fn new(config: WeixinChannelConfig, version: &str) -> (r: Self)
        ensures
            r.config == config,
            r.channel_version@ == version@,
            r.client_version@ == version@,
    {
        WeixinApiClient {
            config,
            channel_version: version.to_owned(),
            client_version: version.to_owned(),
        }
    }

    /// The headers of every request.
    pub open spec fn common_lines(&self) -> Seq<(Seq<char>, Seq<char>)> {
        common_header_lines(
            self.config.ilink_app_id@,
            version_number(text::split_at_each(self.client_version@, '.')),
            text::opt_view(self.config.route_tag),
        )
    }

    /// Writes the headers of every request.
    pub fn common_headers(&self) -> (r: Result<Vec<HeaderLine>, String>)
        ensures
            match r {
                Ok(hs) => version_problem(self.client_version@) is None && headers_view(hs@)
                    == self.common_lines(),
                Err(m) => version_problem(self.client_version@) == Some(m@),
            },
    {
        let version: u32 = match build_client_version(self.client_version.as_str()) {
            Ok(n) => n,
            Err(m) => return Err(m),
        };
        let mut hs: Vec<HeaderLine> = Vec::new();
        push_header(&mut hs, "iLink-App-Id", self.config.ilink_app_id.as_str());
        push_header(
            &mut hs,
            "iLink-App-ClientVersion",
            number::decimal_text(version as u64).as_str(),
        );
        if let Some(tag) = &self.config.route_tag {
            push_header(&mut hs, "SKRouteTag", tag.as_str());
        }
        assert(headers_view(hs@) =~= self.common_lines());
        Ok(hs)
    }

    fn api_get(&self, base_url: &str, endpoint: &str, timeout_ms: u64) -> (r: Result<
        ApiRequest,
        String,
    >)
        ensures
            match r {
                Ok(request) => {
                    &&& version_problem(self.client_version@) is None
                    &&& request.url@ == url_of(base_url@, endpoint@)
                    &&& headers_view(request.headers@) == self.common_lines()
                    &&& request.timeout_ms == timeout_ms
                },
                Err(m) => version_problem(self.client_version@) == Some(m@),
            },
    {
        match self.common_headers() {
            Ok(headers) => Ok(
                ApiRequest { url: endpoint_url(base_url, endpoint), headers, timeout_ms },
            ),
            Err(m) => Err(m),
        }
    }

    /// The request for a QR code.
    pub fn fetch_qr_code(&self, bot_type: &str) -> (r: Result<ApiRequest, String>)
        ensures
            match r {
                Ok(request) => {
                    &&& version_problem(self.client_version@) is None
                    &&& request.url@ == url_of(
                        self.config.base_url@,
                        "ilink/bot/get_bot_qrcode?bot_type="@ + encoding::percent_encoded(
                            encode_utf8(bot_type@),
                        ),
                    )
                    &&& headers_view(request.headers@) == self.common_lines()
                    &&& request.timeout_ms == QR_CODE_TIMEOUT_MS
                },
                Err(m) => version_problem(self.client_version@) == Some(m@),
            },
    {
        let endpoint = text::cat(
            "ilink/bot/get_bot_qrcode?bot_type=",
            outside::url_encode(bot_type).as_str(),
        );
        self.api_get(self.config.base_url.as_str(), endpoint.as_str(), QR_CODE_TIMEOUT_MS)
    }

    /// The request that asks what has become of a QR code.
    pub fn poll_qr_status(&self, api_base_url: &str, qrcode: &str, timeout_ms: u64) -> (r: Result<
        ApiRequest,
        String,
    >)
        ensures
            match r {
                Ok(request) => {
                    &&& version_problem(self.client_version@) is None
                    &&& request.url@ == url_of(
                        api_base_url@,
                        "ilink/bot/get_qrcode_status?qrcode="@ + encoding::percent_encoded(
                            encode_utf8(qrcode@),
                        ),
                    )
                    &&& headers_view(request.headers@) == self.common_lines()
                    &&& request.timeout_ms == timeout_ms
                },
                Err(m) => version_problem(self.client_version@) == Some(m@),
            },
    {
        let endpoint = text::cat(
            "ilink/bot/get_qrcode_status?qrcode=",
            outside::url_encode(qrcode).as_str(),
        );
        self.api_get(api_base_url, endpoint.as_str(), timeout_ms)
    }

    /// The headers of a request that is sent for an account, under the identifier made from a UUID.
    pub fn auth_headers(&self, token: &str, body_len: usize, uuid: &[u8; 16]) -> (r: Result<
        Vec<HeaderLine>,
        String,
    >)
        ensures
            match r {
                Ok(hs) => version_problem(self.client_version@) is None && headers_view(hs@)
                    == auth_header_lines(self.common_lines(), token@, body_len as nat, uuid@),
                Err(m) => version_problem(self.client_version@) == Some(m@),
            },
    {
        let mut hs = match self.common_headers() {
            Ok(headers) => headers,
            Err(m) => return Err(m),
        };
        push_header(&mut hs, "AuthorizationType", "ilink_bot_token");
        push_header(&mut hs, "X-WECHAT-UIN", wechat_uin(uuid).as_str());
        push_header(&mut hs, "content-length", number::decimal_text(body_len as u64).as_str());
        if !text::blank(token) {
            push_header(&mut hs, "authorization", text::cat("Bearer ", text::trim(token)).as_str());
        }
        assert(headers_view(hs@) =~= auth_header_lines(
            self.common_lines(),
            token@,
            body_len as nat,
            uuid@,
        ));
        Ok(hs)
    }

    /// A request with a body, under the identifier made from a UUID.
    pub fn api_post_with(
        &self,
        base_url: &str,
        endpoint: &str,
        token: &str,
        body_len: usize,
        timeout_ms: u64,
        uuid: &[u8; 16],
    ) -> (r: Result<ApiRequest, String>)
        ensures
            match r {
                Ok(request) => {
                    &&& version_problem(self.client_version@) is None
                    &&& request.url@ == url_of(base_url@, endpoint@)
                    &&& headers_view(request.headers@) == post_header_lines(
                        self.common_lines(),
                        token@,
                        body_len as nat,
                        uuid@,
                    )
                    &&& request.timeout_ms == timeout_ms
                },
                Err(m) => version_problem(self.client_version@) == Some(m@),
            },
    {
        let mut hs = match self.auth_headers(token, body_len, uuid) {
            Ok(headers) => headers,
            Err(m) => return Err(m),
        };
        push_header(&mut hs, "content-type", "application/json");
        Ok(ApiRequest { url: endpoint_url(base_url, endpoint), headers: hs, timeout_ms })
    }

    /// A request with a body, under a fresh identifier.
    pub fn api_post(
        &self,
        base_url: &str,
        endpoint: &str,
        token: &str,
        body_len: usize,
        timeout_ms: u64,
    ) -> (r: Result<ApiRequest, String>)
        ensures
            match r {
                Ok(request) => {
                    &&& version_problem(self.client_version@) is None
                    &&& request.url@ == url_of(base_url@, endpoint@)
                    &&& exists|uuid: Seq<u8>|
                        encoding::is_uuid_v4(uuid) && headers_view(request.headers@)
                            == #[trigger] post_header_lines(
                            self.common_lines(),
                            token@,
                            body_len as nat,
                            uuid,
                        )
                    &&& request.timeout_ms == timeout_ms
                },
                Err(m) => version_problem(self.client_version@) == Some(m@),
            },
    {
        let uuid = outside::new_uuid();
        self.api_post_with(base_url, endpoint, token, body_len, timeout_ms, &uuid)
    }

    /// What every body carries.
    pub fn base_info(&self) -> (r: WeixinBaseInfo<'_>)
        ensures
            r.channel_version@ == self.channel_version@,
    {
        WeixinBaseInfo { channel_version: self.channel_version.as_str() }
    }

    /// The body of a request for news.
    pub fn get_updates<'a>(&'a self, get_updates_buf: &'a str) -> (r: WeixinGetUpdatesRequest<'a>)
        ensures
            r.get_updates_buf@ == get_updates_buf@,
            r.base_info.channel_version@ == self.channel_version@,
    {
        WeixinGetUpdatesRequest { get_updates_buf, base_info: self.base_info() }
    }

    fn outbound<'a>(
        &'a self,
        to_user_id: &'a str,
        client_id: &'a str,
        item: WeixinOutboundMessageItem<'a>,
        context_token: Option<&'a str>,
    ) -> (r: WeixinSendMessageRequest<'a>)
        ensures
            self.is_envelope(r, to_user_id@, client_id@, context_token),
            r.msg.item_list@ == seq![item],
    {
        WeixinSendMessageRequest {
            msg: WeixinOutboundMessage {
                from_user_id: "",
                to_user_id,
                client_id,
                message_type: 2,
                message_state: 2,
                item_list: vec![item],
                context_token,
            },
            base_info: self.base_info(),
        }
    }

    /// Whether a request sends a finished message of the bot to a user.
    pub open spec fn is_envelope(
        &self,
        r: WeixinSendMessageRequest<'_>,
        to_user_id: Seq<char>,
        client_id: Seq<char>,
        context_token: Option<&str>,
    ) -> bool {
        &&& r.msg.from_user_id@ == ""@
        &&& r.msg.to_user_id@ == to_user_id
        &&& r.msg.client_id@ == client_id
        &&& r.msg.message_type == 2
        &&& r.msg.message_state == 2
        &&& r.msg.context_token == context_token
        &&& r.base_info.channel_version@ == self.channel_version@
    }

    /// The body by which a text is sent.
    pub fn send_text_message<'a>(
        &'a self,
        to_user_id: &'a str,
        client_id: &'a str,
        text: &'a str,
        context_token: Option<&'a str>,
    ) -> (r: WeixinSendMessageRequest<'a>)
        ensures
            self.is_envelope(r, to_user_id@, client_id@, context_token),
            r.msg.item_list@.len() == 1,
            r.msg.item_list@[0].item_type == 1,
            r.msg.item_list@[0].text_item matches Some(t) && t.text@ == text@,
            r.msg.item_list@[0].voice_item is None,
            r.msg.item_list@[0].file_item is None,
    {
        let item = WeixinOutboundMessageItem {
            item_type: 1,
            text_item: Some(WeixinOutboundTextItem { text }),
            voice_item: None,
            file_item: None,
        };
        self.outbound(to_user_id, client_id, item, context_token)
    }

    /// The body by which uploaded sound is sent.
    pub fn send_voice_message<'a>(
        &'a self,
        to_user_id: &'a str,
        client_id: &'a str,
        voice: &'a WeixinUploadedVoice,
        context_token: Option<&'a str>,
        voice_size: Option<usize>,
        sample_rate: Option<u32>,
        playtime_ms: Option<u64>,
    ) -> (r: WeixinSendMessageRequest<'a>)
        ensures
            self.is_envelope(r, to_user_id@, client_id@, context_token),
            r.msg.item_list@.len() == 1,
            r.msg.item_list@[0].item_type == 3,
            r.msg.item_list@[0].text_item is None,
            r.msg.item_list@[0].voice_item matches Some(v) && {
                &&& v.media.encrypt_query_param@ == voice.encrypt_query_param@
                &&& v.media.aes_key@ == voice.aes_key@
                &&& v.media.encrypt_type == Some(WEIXIN_MEDIA_ENCRYPT_TYPE_PACK)
                &&& v.voice_size == voice_size
                &&& v.encode_type == Some(WEIXIN_VOICE_ENCODE_MP3)
                &&& v.bits_per_sample == Some(16u8)
                &&& v.sample_rate == sample_rate
                &&& v.playtime == playtime_ms
            },
            r.msg.item_list@[0].file_item is None,
    {
        let item = WeixinOutboundMessageItem {
            item_type: 3,
            text_item: None,
            voice_item: Some(
                WeixinOutboundVoiceItem {
                    media: WeixinOutboundCdnMedia {
                        encrypt_query_param: voice.encrypt_query_param.as_str(),
                        aes_key: voice.aes_key.as_str(),
                        encrypt_type: Some(WEIXIN_MEDIA_ENCRYPT_TYPE_PACK),
                    },
                    voice_size,
                    encode_type: Some(WEIXIN_VOICE_ENCODE_MP3),
                    bits_per_sample: Some(16),
                    sample_rate,
                    playtime: playtime_ms,
                },
            ),
            file_item: None,
        };
        self.outbound(to_user_id, client_id, item, context_token)
    }

    /// The body by which an uploaded file is sent.
    pub fn send_file_message<'a>(
        &'a self,
        to_user_id: &'a str,
        client_id: &'a str,
        file_name: &'a str,
        file: &'a WeixinUploadedFile,
        context_token: Option<&'a str>,
    ) -> (r: WeixinSendMessageRequest<'a>)
        ensures
            self.is_envelope(r, to_user_id@, client_id@, context_token),
            r.msg.item_list@.len() == 1,
            r.msg.item_list@[0].item_type == 4,
            r.msg.item_list@[0].text_item is None,
            r.msg.item_list@[0].voice_item is None,
            r.msg.item_list@[0].file_item matches Some(f) && {
                &&& f.media.encrypt_query_param@ == file.encrypt_query_param@
                &&& f.media.aes_key@ == file.aes_key@
                &&& f.media.encrypt_type == Some(WEIXIN_MEDIA_ENCRYPT_TYPE_PACK)
                &&& f.file_name == Some(file_name)
                &&& f.md5 is None
                &&& f.len matches Some(len) && len@ == number::decimal(file.file_size as nat)
            },
    {
        let item = WeixinOutboundMessageItem {
            item_type: 4,
            text_item: None,
            voice_item: None,
            file_item: Some(
                WeixinOutboundFileItem {
                    media: WeixinOutboundCdnMedia {
                        encrypt_query_param: file.encrypt_query_param.as_str(),
                        aes_key: file.aes_key.as_str(),
                        encrypt_type: Some(WEIXIN_MEDIA_ENCRYPT_TYPE_PACK),
                    },
                    file_name: Some(file_name),
                    md5: None,
                    len: Some(number::decimal_text(file.file_size as u64)),
                },
            ),
        };
        self.outbound(to_user_id, client_id, item, context_token)
    }

    /// The body of the request for a place to upload a file to.
    pub fn upload_request<'a>(
        &'a self,
        upload: &'a Upload,
        media_type: u8,
        to_user_id: &'a str,
    ) -> (r: WeixinGetUploadUrlRequest<'a>)
        ensures
            r.filekey@ == upload.file_key@,
            r.media_type == media_type,
            r.to_user_id@ == to_user_id@,
            r.rawsize == upload.raw_size,
            r.rawfilemd5@ == upload.raw_md5@,
            r.filesize == upload.encrypted@.len(),
            r.no_need_thumb,
            r.aeskey@ == upload.aes_key_hex@,
            r.base_info.channel_version@ == self.channel_version@,
    {
        WeixinGetUploadUrlRequest {
            filekey: upload.file_key.as_str(),
            media_type,
            to_user_id,
            rawsize: upload.raw_size,
            rawfilemd5: upload.raw_md5.as_str(),
            filesize: upload.encrypted.len(),
            no_need_thumb: true,
            aeskey: upload.aes_key_hex.as_str(),
            base_info: self.base_info(),
        }
    }
}

/// A file made ready to be uploaded.
#[derive(Debug)]
pub struct Upload {
    pub file_key: String,
    pub aes_key_hex: String,
    pub raw_md5: String,
    pub raw_size: usize,
    pub encrypted: Vec<u8>,
}

/// Whether a file was made ready under a key and a name, both made from UUIDs.
pub open spec fn is_upload(u: Upload, bytes: Seq<u8>, key: Seq<u8>, name: Seq<u8>) -> bool {
    &&& u.file_key@ == number::hex_of(name)
    &&& u.aes_key_hex@ == number::hex_of(key)
    &&& u.raw_md5@ == number::hex_of(outside::md5_digest(bytes))
    &&& u.raw_size == bytes.len()
    &&& u.encrypted@ == crypto::encrypted_blocks(key, crypto::padded(bytes, 16))
    &&& u.encrypted@.len() == crypto::padded(bytes, 16).len()
}

/// Makes a file ready to be uploaded, under the given key and name.
pub fn prepare_upload_with(bytes: &[u8], key: &[u8; 16], name: &[u8; 16]) -> (r: Upload)
    ensures
        is_upload(r, bytes@, key@, name@),
{
    let digest = outside::md5_compute(bytes);
    Upload {
        file_key: crypto::hex_lower(name),
        aes_key_hex: crypto::hex_lower(key),
        raw_md5: crypto::hex_lower(&digest),
        raw_size: bytes.len(),
        encrypted: crypto::aes_128_ecb_pkcs7_encrypt(key, bytes),
    }
}

/// Makes a file ready to be uploaded, under a fresh key and name.
pub fn prepare_upload(bytes: &[u8]) -> (r: Upload)
    ensures
        exists|key: Seq<u8>, name: Seq<u8>|
            encoding::is_uuid_v4(key) && encoding::is_uuid_v4(name) && #[trigger] is_upload(
                r,
                bytes@,
                key,
                name,
            ),
{
    let key = outside::new_uuid();
    let name = outside::new_uuid();
    prepare_upload_with(bytes, &key, &name)
}

/// The value of an optional code; a missing one counts as zero.
pub open spec fn code_of(code: Option<i64>) -> int {
    match code {
        Some(n) => n as int,
        None => 0,
    }
}

/// The value of an optional code.
pub fn code_or_zero(code: &Option<i64>) -> (r: i64)
    ensures
        r == code_of(*code),
{
    match code {
        Some(n) => *n,
        None => 0,
    }
}

/// The address that a file is uploaded to.
pub open spec fn cdn_url(
    cdn_base_url: Seq<char>,
    upload_param: Seq<char>,
    file_key: Seq<char>,
) -> Seq<char> {
    text::without_trailing(cdn_base_url, '/') + "/upload?encrypted_query_param="@
        + encoding::percent_encoded(encode_utf8(text::trimmed(upload_param))) + "&filekey="@
        + encoding::percent_encoded(encode_utf8(file_key))
}

/// Writes the address that a file is uploaded to.
pub fn build_cdn_upload_url(cdn_base_url: &str, upload_param: &str, file_key: &str) -> (r: String)
    ensures
        r@ == cdn_url(cdn_base_url@, upload_param@, file_key@),
{
    text::cat5(
        text::trim_end_matches(cdn_base_url, '/').as_str(),
        "/upload?encrypted_query_param=",
        outside::url_encode(text::trim(upload_param)).as_str(),
        "&filekey=",
        outside::url_encode(file_key).as_str(),
    )
}

/// A value of a response, trimmed, where it is more than white space.
pub open spec fn given(o: Option<String>) -> Option<Seq<char>> {
    env::filled(text::opt_view(o))
}

/// Keeps a value of a response that is more than white space, trimmed.
pub fn take_given(o: &Option<String>) -> (r: Option<String>)
    ensures
        text::opt_view(r) == given(*o),
{
    match o {
        Some(s) => {
            let t = text::trim(s.as_str());
            if t.unicode_len() == 0 {
                None
            } else {
                Some(t.to_owned())
            }
        },
        None => None,
    }
}

/// The place that a response names to upload a file to: a whole address, or what is missing of one.
pub open spec fn upload_place(
    response: WeixinGetUploadUrlResponse,
    cdn_base_url: Seq<char>,
    file_key: Seq<char>,
) -> Option<Seq<char>> {
    match given(response.upload_full_url) {
        Some(url) => Some(url),
        None => match given(response.upload_param) {
            Some(param) => Some(cdn_url(cdn_base_url, param, file_key)),
            None => None,
        },
    }
}

/// Why there is no place to upload a file to.
pub open spec fn upload_refusal(response: WeixinGetUploadUrlResponse) -> Seq<char> {
    "weixin getuploadurl failed: ret="@ + number::signed_decimal(code_of(response.ret))
        + " errcode="@ + number::signed_decimal(code_of(response.errcode)) + " message="@
        + env::or_default(text::opt_view(response.errmsg), "unknown weixin upload error"@)
}

/// Reads the place to upload a file to.
pub fn read_upload_place(
    response: &WeixinGetUploadUrlResponse,
    cdn_base_url: &str,
    file_key: &str,
) -> (r: Result<String, String>)
    ensures
        ({
            let refused = code_of(response.ret) != 0 || code_of(response.errcode) != 0;
            let place = upload_place(*response, cdn_base_url@, file_key@);
            match r {
                Ok(url) => !refused && place == Some(url@),
                Err(m) => if refused {
                    m@ == upload_refusal(*response)
                } else {
                    place is None && m@ == "weixin getuploadurl response missing upload target"@
                },
            }
        }),
{
    let ret: i64 = code_or_zero(&response.ret);
    let errcode: i64 = code_or_zero(&response.errcode);
    if ret != 0 || errcode != 0 {
        let why = match &response.errmsg {
            Some(m) => m.clone(),
            None => "unknown weixin upload error".to_owned(),
        };
        let mut message = text::cat4(
            "weixin getuploadurl failed: ret=",
            number::signed_decimal_text(ret).as_str(),
            " errcode=",
            number::signed_decimal_text(errcode).as_str(),
        );
        message.append(" message=");
        message.append(why.as_str());
        return Err(message);
    }
    match take_given(&response.upload_full_url) {
        Some(url) => Ok(url),
        None => match take_given(&response.upload_param) {
            Some(param) => {
                let url = build_cdn_upload_url(cdn_base_url, param.as_str(), file_key);
                Ok(url)
            },
            None => Err("weixin getuploadurl response missing upload target".to_owned()),
        },
    }
}

/// What was answered to an upload: `code` is the HTTP status, `param` the header that tells where
/// the file lies.
#[derive(Debug)]
pub struct CdnReply {
    pub success: bool,
    pub code: u16,
    pub param: Option<String>,
    pub body: String,
}

/// Why an upload did not end well, if so.
pub open spec fn cdn_problem(reply: CdnReply) -> Option<Seq<char>> {
    if !reply.success {
        Some(
            "weixin cdn upload returned HTTP "@ + number::decimal(reply.code as nat) + ": "@
                + reply.body@,
        )
    } else if given(reply.param) is None {
        Some("weixin cdn upload response missing x-encrypted-param"@)
    } else {
        None
    }
}

/// Reads where an uploaded file lies.
pub fn read_cdn_reply(reply: &CdnReply) -> (r: Result<String, String>)
    ensures
        match r {
            Ok(param) => cdn_problem(*reply) is None && given(reply.param) == Some(param@),
            Err(m) => cdn_problem(*reply) == Some(m@),
        },
{
    if !reply.success {
        return Err(
            text::cat4(
                "weixin cdn upload returned HTTP ",
                number::decimal_text(reply.code as u64).as_str(),
                ": ",
                reply.body.as_str(),
            ),
        );
    }
    match take_given(&reply.param) {
        Some(param) => Ok(param),
        None => Err("weixin cdn upload response missing x-encrypted-param".to_owned()),
    }
}

/// The key of an uploaded file as it is told to the receiver.
pub open spec fn told_key(aes_key_hex: Seq<char>) -> Seq<char> {
    encoding::base64_of(encode_utf8(aes_key_hex), false, true)
}

/// Ends the upload of a file.
pub fn upload_file(upload: &Upload, reply: &CdnReply) -> (r: Result<WeixinUploadedFile, String>)
    ensures
        match r {
            Ok(file) => {
                &&& cdn_problem(*reply) is None
                &&& given(reply.param) == Some(file.encrypt_query_param@)
                &&& file.aes_key@ == told_key(upload.aes_key_hex@)
                &&& file.file_size == upload.raw_size
            },
            Err(m) => cdn_problem(*reply) == Some(m@),
        },
{
    match read_cdn_reply(reply) {
        Ok(encrypt_query_param) => Ok(
            WeixinUploadedFile {
                encrypt_query_param,
                aes_key: outside::base64_encode(upload.aes_key_hex.as_str().as_bytes()),
                file_size: upload.raw_size,
            },
        ),
        Err(m) => Err(m),
    }
}

/// Ends the upload of sound.
pub fn upload_voice(upload: &Upload, reply: &CdnReply) -> (r: Result<WeixinUploadedVoice, String>)
    ensures
        match r {
            Ok(voice) => {
                &&& cdn_problem(*reply) is None
                &&& given(reply.param) == Some(voice.encrypt_query_param@)
                &&& voice.aes_key@ == told_key(upload.aes_key_hex@)
            },
            Err(m) => cdn_problem(*reply) == Some(m@),
        },
{
    match read_cdn_reply(reply) {
        Ok(encrypt_query_param) => Ok(
            WeixinUploadedVoice {
                encrypt_query_param,
                aes_key: outside::base64_encode(upload.aes_key_hex.as_str().as_bytes()),
            },
        ),
        Err(m) => Err(m),
    }
}

/// Reads a response: its body, or an error that tells the HTTP status.
pub fn read_text_response(success: bool, code: u16, body: String) -> (r: Result<String, String>)
    ensures
        match r {
            Ok(text) => success && text == body,
            Err(m) => !success && m@ == "weixin api returned HTTP "@ + number::decimal(code as nat)
                + ": "@ + body@,
        },
{
    if success {
        Ok(body)
    } else {
        Err(
            text::cat4(
                "weixin api returned HTTP ",
                number::decimal_text(code as u64).as_str(),
                ": ",
                body.as_str(),
            ),
        )
    }
}

/// What stands for news where none came in time: nothing new, and the same place to go on from.
pub fn updates_after_timeout(get_updates_buf: &str) -> (r: WeixinGetUpdatesResponse)
    ensures
        r.ret == Some(0i64),
        r.errcode == Some(0i64),
        r.errmsg is None,
        r.msgs@.len() == 0,
        text::opt_view(r.get_updates_buf) == Some(get_updates_buf@),
        r.longpolling_timeout_ms is None,
{
    let msgs: Vec<WeixinMessage> = Vec::new();
    WeixinGetUpdatesResponse {
        ret: Some(0),
        errcode: Some(0),
        errmsg: None,
        msgs,
        get_updates_buf: Some(get_updates_buf.to_owned()),
        longpolling_timeout_ms: None,
    }
}

} // verus!
