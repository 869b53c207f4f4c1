//! What holds of requests to the Weixin service, and of its responses.

use vstd::prelude::*;
use vstd::string::*;
use vstd::utf8::*;

use crate::channel::weixin::api;
use crate::channel::weixin::api::{ApiRequest, CdnReply, HeaderLine, Upload, WeixinApiClient};
use crate::channel::weixin::crypto;
use crate::channel::weixin::types::{
    WeixinGetUpdatesRequest, WeixinGetUpdatesResponse, WeixinGetUploadUrlRequest,
    WeixinGetUploadUrlResponse, WeixinSendMessageRequest, WeixinUploadedFile, WeixinUploadedVoice,
};
use crate::encoding;
use crate::laws::text::lemma_run_at_the_end;
use crate::number;
use crate::outside;
use crate::text;

verus! {

/// Whether a header of a name stands at a place, with a value.
pub open spec fn header_is(hs: Seq<HeaderLine>, i: int, name: Seq<char>, value: Seq<char>) -> bool {
    0 <= i < hs.len() && hs[i].name@ == name && hs[i].value@ == value
}

proof fn lemma_header_at(hs: Seq<HeaderLine>, i: int)
    requires
        0 <= i < hs.len(),
    ensures
        api::headers_view(hs)[i] == (hs[i].name@, hs[i].value@),
{
}

/// Every request tells the application, the version of the client as one number, and the route where
/// one is configured.
pub proof fn law_every_request_tells_the_application(
    client: &WeixinApiClient,
    r: Result<Vec<HeaderLine>, String>,
    version: &str,
    n: Result<u32, String>,
    numeral: String,
)
    requires
        call_ensures(WeixinApiClient::common_headers, (client,), r),
        version@ == client.client_version@,
        call_ensures(api::build_client_version, (version,), n),
        n matches Ok(v) ==> call_ensures(number::decimal_text, (v as u64,), numeral),
    ensures
        r is Ok <==> n is Ok,
        r matches Err(m) ==> m@ == n->Err_0@,
        r matches Ok(hs) ==> {
            &&& header_is(hs@, 0, "iLink-App-Id"@, client.config.ilink_app_id@)
            &&& header_is(hs@, 1, "iLink-App-ClientVersion"@, numeral@)
            &&& client.config.route_tag matches Some(tag) ==> hs@.len() == 3 && header_is(
                hs@,
                2,
                "SKRouteTag"@,
                tag@,
            )
            &&& client.config.route_tag is None ==> hs@.len() == 2
        },
{
    if let Ok(hs) = r {
        assert(api::headers_view(hs@) == client.common_lines());
        assert(api::headers_view(hs@).len() == hs@.len());
        lemma_header_at(hs@, 0);
        lemma_header_at(hs@, 1);
        if hs@.len() > 2 {
            lemma_header_at(hs@, 2);
        }
    }
}

/// A request that is sent for an account tells that it is, carries the account's token, trimmed,
/// where it has one, and how long its body is, behind what every request tells.
pub proof fn law_request_is_sent_for_the_account(
    client: &WeixinApiClient,
    token: &str,
    body_len: usize,
    uuid: &[u8; 16],
    r: Result<Vec<HeaderLine>, String>,
    common: Result<Vec<HeaderLine>, String>,
    uin: String,
    length: String,
)
    requires
        call_ensures(WeixinApiClient::auth_headers, (client, token, body_len, uuid), r),
        call_ensures(WeixinApiClient::common_headers, (client,), common),
        call_ensures(api::wechat_uin, (uuid,), uin),
        call_ensures(number::decimal_text, (body_len as u64,), length),
    ensures
        r is Ok <==> common is Ok,
        r matches Err(m) ==> m@ == common->Err_0@,
        r matches Ok(hs) ==> {
            let n = common->Ok_0@.len() as int;
            &&& forall|i: int|
                0 <= i < n ==> header_is(
                    hs@,
                    i,
                    (#[trigger] common->Ok_0@[i]).name@,
                    common->Ok_0@[i].value@,
                )
            &&& header_is(hs@, n, "AuthorizationType"@, "ilink_bot_token"@)
            &&& header_is(hs@, n + 1, "X-WECHAT-UIN"@, uin@)
            &&& header_is(hs@, n + 2, "content-length"@, length@)
            &&& text::is_blank(token@) ==> hs@.len() == n + 3
            &&& !text::is_blank(token@) ==> hs@.len() == n + 4 && header_is(
                hs@,
                n + 3,
                "authorization"@,
                "Bearer "@ + text::trimmed(token@),
            )
        },
{
    if let Ok(hs) = r {
        let cs = common->Ok_0@;
        let n = cs.len() as int;
        let hv = api::headers_view(hs@);
        let cv = api::headers_view(cs);
        assert(hv.len() == hs@.len() && cv.len() == n);
        assert(body_len as u64 as nat == body_len as nat);
        assert forall|i: int| 0 <= i < n implies header_is(
            hs@,
            i,
            (#[trigger] cs[i]).name@,
            cs[i].value@,
        ) by {
            lemma_header_at(hs@, i);
            lemma_header_at(cs, i);
            assert(hv[i] == cv[i]);
        }
        lemma_header_at(hs@, n);
        lemma_header_at(hs@, n + 1);
        lemma_header_at(hs@, n + 2);
        if hs@.len() > n + 3 {
            lemma_header_at(hs@, n + 3);
        }
    }
}

/// Whether an address is an endpoint below a base address, however many slashes that ends with.
pub open spec fn is_below(url: Seq<char>, base: Seq<char>, endpoint: Seq<char>) -> bool {
    exists|n: int|
        0 <= n <= base.len() && url == #[trigger] base.take(n) + "/"@ + endpoint && (n > 0 ==> base[n
            - 1] != '/') && forall|i: int| n <= i < base.len() ==> base[i] == '/'
}

proof fn lemma_below(base: Seq<char>, endpoint: Seq<char>)
    ensures
        is_below(api::url_of(base, endpoint), base, endpoint),
{
    lemma_run_at_the_end(base, '/');
    let n = text::without_trailing(base, '/').len() as int;
    assert(api::url_of(base, endpoint) == base.take(n) + "/"@ + endpoint);
}

/// A request with a body goes to the endpoint below the given address, with the headers of the
/// account and as JSON, and may take as long as is said.
pub proof fn law_post_goes_to_the_endpoint(
    client: &WeixinApiClient,
    base_url: &str,
    endpoint: &str,
    token: &str,
    body_len: usize,
    timeout_ms: u64,
    uuid: &[u8; 16],
    r: Result<ApiRequest, String>,
    auth: Result<Vec<HeaderLine>, String>,
)
    requires
        call_ensures(
            WeixinApiClient::api_post_with,
            (client, base_url, endpoint, token, body_len, timeout_ms, uuid),
            r,
        ),
        call_ensures(WeixinApiClient::auth_headers, (client, token, body_len, uuid), auth),
    ensures
        r is Ok <==> auth is Ok,
        r matches Err(m) ==> m@ == auth->Err_0@,
        r matches Ok(request) ==> {
            let n = auth->Ok_0@.len() as int;
            &&& is_below(request.url@, base_url@, endpoint@)
            &&& request.timeout_ms == timeout_ms
            &&& request.headers@.len() == n + 1
            &&& header_is(request.headers@, n, "content-type"@, "application/json"@)
            &&& forall|i: int|
                0 <= i < n ==> header_is(
                    request.headers@,
                    i,
                    (#[trigger] auth->Ok_0@[i]).name@,
                    auth->Ok_0@[i].value@,
                )
        },
{
    lemma_below(base_url@, endpoint@);
    if let Ok(request) = r {
        let hs = request.headers@;
        let cs = auth->Ok_0@;
        let n = cs.len() as int;
        let hv = api::headers_view(hs);
        let cv = api::headers_view(cs);
        assert(hv.len() == hs.len() && cv.len() == n);
        assert(hv == cv.push(("content-type"@, "application/json"@)));
        assert forall|i: int| 0 <= i < n implies header_is(
            hs,
            i,
            (#[trigger] cs[i]).name@,
            cs[i].value@,
        ) by {
            lemma_header_at(hs, i);
            lemma_header_at(cs, i);
            assert(hv[i] == cv[i]);
        }
        lemma_header_at(hs, n);
    }
}

/// A QR code is asked for at the configured address, for the given kind of bot, within five seconds.
pub proof fn law_qr_code_is_asked_for(
    client: &WeixinApiClient,
    bot_type: &str,
    r: Result<ApiRequest, String>,
    common: Result<Vec<HeaderLine>, String>,
)
    requires
        call_ensures(WeixinApiClient::fetch_qr_code, (client, bot_type), r),
        call_ensures(WeixinApiClient::common_headers, (client,), common),
    ensures
        r is Ok <==> common is Ok,
        r matches Ok(request) ==> {
            &&& is_below(
                request.url@,
                client.config.base_url@,
                "ilink/bot/get_bot_qrcode?bot_type="@ + encoding::percent_encoded(
                    encode_utf8(bot_type@),
                ),
            )
            &&& request.timeout_ms == 5_000
            &&& api::headers_view(request.headers@) == api::headers_view(common->Ok_0@)
        },
{
    lemma_below(
        client.config.base_url@,
        "ilink/bot/get_bot_qrcode?bot_type="@ + encoding::percent_encoded(encode_utf8(bot_type@)),
    );
}

/// What has become of a QR code is asked at the address of the login, by that code, for as long as is
/// said.
pub proof fn law_qr_code_is_asked_about(
    client: &WeixinApiClient,
    api_base_url: &str,
    qrcode: &str,
    timeout_ms: u64,
    r: Result<ApiRequest, String>,
    common: Result<Vec<HeaderLine>, String>,
)
    requires
        call_ensures(
            WeixinApiClient::poll_qr_status,
            (client, api_base_url, qrcode, timeout_ms),
            r,
        ),
        call_ensures(WeixinApiClient::common_headers, (client,), common),
    ensures
        r is Ok <==> common is Ok,
        r matches Ok(request) ==> {
            &&& is_below(
                request.url@,
                api_base_url@,
                "ilink/bot/get_qrcode_status?qrcode="@ + encoding::percent_encoded(
                    encode_utf8(qrcode@),
                ),
            )
            &&& request.timeout_ms == timeout_ms
            &&& api::headers_view(request.headers@) == api::headers_view(common->Ok_0@)
        },
{
    lemma_below(
        api_base_url@,
        "ilink/bot/get_qrcode_status?qrcode="@ + encoding::percent_encoded(encode_utf8(qrcode@)),
    );
}

/// A version of three numerals is one number with a byte for each; missing ones count as zero, and
/// what is no numeral is refused.
pub proof fn law_version_is_one_number(
    version: &str,
    r: Result<u32, String>,
    chars: &Vec<char>,
    parts: Vec<Vec<char>>,
)
    requires
        call_ensures(api::build_client_version, (version,), r),
        chars@ == version@,
        call_ensures(text::split_on, (chars, '.'), parts),
    ensures
        (forall|i: int|
            0 <= i < parts@.len() ==> #[trigger] number::unsigned_value(
                parts@[i]@,
                u32::MAX as nat,
            ) is Ok) ==> {
            let part = |i: int|
                if i < parts@.len() {
                    number::unsigned_value(parts@[i]@, u32::MAX as nat)->Ok_0 as int
                } else {
                    0
                };
            r matches Ok(n) && n == part(0) % 256 * 65536 + part(1) % 256 * 256 + part(2) % 256
        },
        (exists|i: int|
            0 <= i < parts@.len() && #[trigger] number::unsigned_value(
                parts@[i]@,
                u32::MAX as nat,
            ) is Err) ==> r is Err,
{
    let ps = text::pieces_view(parts@);
    assert(ps == text::split_at_each(version@, '.'));
    assert forall|i: int| 0 <= i < parts@.len() implies #[trigger] ps[i] == parts@[i]@ by {}
    lemma_bad_numeral(ps);
    if forall|i: int|
        0 <= i < parts@.len() ==> #[trigger] number::unsigned_value(
            parts@[i]@,
            u32::MAX as nat,
        ) is Ok {
        assert forall|i: int| 0 <= i < ps.len() implies number::unsigned_value(
            #[trigger] ps[i],
            u32::MAX as nat,
        ) is Ok by {
            assert(number::unsigned_value(parts@[i]@, u32::MAX as nat) is Ok);
        }
        if ps.len() > 0 {
            assert(ps[0] == parts@[0]@);
        }
        if ps.len() > 1 {
            assert(ps[1] == parts@[1]@);
        }
        if ps.len() > 2 {
            assert(ps[2] == parts@[2]@);
        }
    }
    if exists|i: int|
        0 <= i < parts@.len() && #[trigger] number::unsigned_value(
            parts@[i]@,
            u32::MAX as nat,
        ) is Err {
        let i = choose|i: int|
            0 <= i < parts@.len() && #[trigger] number::unsigned_value(
                parts@[i]@,
                u32::MAX as nat,
            ) is Err;
        assert(number::unsigned_value(ps[i], u32::MAX as nat) is Err);
    }
}

proof fn lemma_bad_numeral(ps: Seq<Seq<char>>)
    ensures
        api::first_bad_numeral(ps) is None <==> forall|i: int|
            0 <= i < ps.len() ==> number::unsigned_value(#[trigger] ps[i], u32::MAX as nat) is Ok,
    decreases ps.len(),
{
    if ps.len() > 0 {
        let rest = ps.skip(1);
        lemma_bad_numeral(rest);
        assert forall|i: int| 0 <= i < rest.len() implies rest[i] == #[trigger] ps[i + 1] by {}
        if forall|i: int|
            0 <= i < ps.len() ==> number::unsigned_value(#[trigger] ps[i], u32::MAX as nat) is Ok {
            assert(number::unsigned_value(ps[0], u32::MAX as nat) is Ok);
            assert forall|i: int| 0 <= i < rest.len() implies number::unsigned_value(
                #[trigger] rest[i],
                u32::MAX as nat,
            ) is Ok by {
                assert(rest[i] == ps[i + 1]);
            }
        } else {
            let k = choose|k: int|
                0 <= k < ps.len() && number::unsigned_value(#[trigger] ps[k], u32::MAX as nat) is
                    Err;
            if k > 0 {
                assert(rest[k - 1] == ps[k]);
            }
        }
    }
}

/// A request carries a number made from four random bytes, written in decimal and then in Base64.
pub proof fn law_identifier_is_a_number(uuid: &[u8; 16], r: String, numeral: String)
    requires
        call_ensures(api::wechat_uin, (uuid,), r),
        call_ensures(
            number::decimal_text,
            ((uuid@[0] as int * 16777216 + uuid@[1] as int * 65536 + uuid@[2] as int * 256
                + uuid@[3] as int) as u64,),
            numeral,
        ),
    ensures
        r@ == encoding::base64_of(encode_utf8(numeral@), false, true),
{
}

/// A text is sent to the user it is for, word for word, under the name it goes out by and with the
/// context token of the conversation.
pub proof fn law_text_is_sent_to_the_user<'a>(
    client: &'a WeixinApiClient,
    to_user_id: &'a str,
    client_id: &'a str,
    said: &'a str,
    context_token: Option<&'a str>,
    r: WeixinSendMessageRequest<'a>,
)
    requires
        call_ensures(
            WeixinApiClient::send_text_message,
            (client, to_user_id, client_id, said, context_token),
            r,
        ),
    ensures
        r.msg.to_user_id@ == to_user_id@,
        r.msg.client_id@ == client_id@,
        r.msg.context_token == context_token,
        r.msg.from_user_id@.len() == 0,
        r.msg.message_type == 2,
        r.msg.message_state == 2,
        r.msg.item_list@.len() == 1,
        r.msg.item_list@[0].item_type == 1,
        r.msg.item_list@[0].text_item matches Some(t) && t.text@ == said@,
        r.msg.item_list@[0].voice_item is None,
        r.msg.item_list@[0].file_item is None,
        r.base_info.channel_version@ == client.channel_version@,
{
    reveal_strlit("");
}

/// A file is sent to the user it is for, by its name and size, with where it lies and the key to it.
pub proof fn law_file_is_sent_to_the_user<'a>(
    client: &'a WeixinApiClient,
    to_user_id: &'a str,
    client_id: &'a str,
    file_name: &'a str,
    file: &'a WeixinUploadedFile,
    context_token: Option<&'a str>,
    r: WeixinSendMessageRequest<'a>,
    size: String,
)
    requires
        call_ensures(
            WeixinApiClient::send_file_message,
            (client, to_user_id, client_id, file_name, file, context_token),
            r,
        ),
        call_ensures(number::decimal_text, (file.file_size as u64,), size),
    ensures
        r.msg.to_user_id@ == to_user_id@,
        r.msg.client_id@ == client_id@,
        r.msg.context_token == context_token,
        r.msg.message_type == 2,
        r.msg.message_state == 2,
        r.msg.item_list@.len() == 1,
        r.msg.item_list@[0].item_type == 4,
        r.msg.item_list@[0].text_item is None,
        r.msg.item_list@[0].voice_item is None,
        r.msg.item_list@[0].file_item matches Some(f) && {
            &&& f.media.encrypt_query_param@ == file.encrypt_query_param@
            &&& f.media.aes_key@ == file.aes_key@
            &&& f.media.encrypt_type == Some(1u8)
            &&& f.file_name matches Some(name) && name@ == file_name@
            &&& f.len matches Some(len) && len@ == size@
            &&& f.md5 is None
        },
        r.base_info.channel_version@ == client.channel_version@,
{
    assert(file.file_size as u64 as nat == file.file_size as nat);
}

/// Sound is sent to the user it is for, as MP3, with where it lies and the key to it, its size, its
/// sample rate and how long it plays.
pub proof fn law_sound_is_sent_to_the_user<'a>(
    client: &'a WeixinApiClient,
    to_user_id: &'a str,
    client_id: &'a str,
    voice: &'a WeixinUploadedVoice,
    context_token: Option<&'a str>,
    voice_size: Option<usize>,
    sample_rate: Option<u32>,
    playtime_ms: Option<u64>,
    r: WeixinSendMessageRequest<'a>,
)
    requires
        call_ensures(
            WeixinApiClient::send_voice_message,
            (
                client,
                to_user_id,
                client_id,
                voice,
                context_token,
                voice_size,
                sample_rate,
                playtime_ms,
            ),
            r,
        ),
    ensures
        r.msg.to_user_id@ == to_user_id@,
        r.msg.client_id@ == client_id@,
        r.msg.context_token == context_token,
        r.msg.message_type == 2,
        r.msg.message_state == 2,
        r.msg.item_list@.len() == 1,
        r.msg.item_list@[0].item_type == 3,
        r.msg.item_list@[0].text_item is None,
        r.msg.item_list@[0].file_item is None,
        r.msg.item_list@[0].voice_item matches Some(v) && {
            &&& v.media.encrypt_query_param@ == voice.encrypt_query_param@
            &&& v.media.aes_key@ == voice.aes_key@
            &&& v.media.encrypt_type == Some(1u8)
            &&& v.voice_size == voice_size
            &&& v.encode_type == Some(7u8)
            &&& v.bits_per_sample == Some(16u8)
            &&& v.sample_rate == sample_rate
            &&& v.playtime == playtime_ms
        },
{
}

/// News are asked for from the place up to which they were read.
pub proof fn law_news_are_asked_for<'a>(
    client: &'a WeixinApiClient,
    buf: &'a str,
    r: WeixinGetUpdatesRequest<'a>,
)
    requires
        call_ensures(WeixinApiClient::get_updates, (client, buf), r),
    ensures
        r.get_updates_buf@ == buf@,
        r.base_info.channel_version@ == client.channel_version@,
{
}

/// A place for an upload is asked for with all that is told of the file: its name, its size before
/// and after encryption, its digest and its key.
pub proof fn law_place_is_asked_for<'a>(
    client: &'a WeixinApiClient,
    upload: &'a Upload,
    media_type: u8,
    to_user_id: &'a str,
    r: WeixinGetUploadUrlRequest<'a>,
)
    requires
        call_ensures(
            WeixinApiClient::upload_request,
            (client, upload, media_type, to_user_id),
            r,
        ),
    ensures
        r.filekey@ == upload.file_key@,
        r.media_type == media_type,
        r.to_user_id@ == to_user_id@,
        r.rawsize == upload.raw_size,
        r.rawfilemd5@ == upload.raw_md5@,
        r.filesize == upload.encrypted@.len(),
        r.aeskey@ == upload.aes_key_hex@,
        r.no_need_thumb,
{
}

/// What is uploaded are the bytes of the file, encrypted under the key that is told; the size and the
/// digest are those of the bytes themselves.
pub proof fn law_upload_is_of_the_file(
    bytes: &[u8],
    key: &[u8; 16],
    name: &[u8; 16],
    r: Upload,
    encrypted: Vec<u8>,
)
    requires
        call_ensures(api::prepare_upload_with, (bytes, key, name), r),
        call_ensures(crypto::aes_128_ecb_pkcs7_encrypt, (key, bytes), encrypted),
    ensures
        r.encrypted@ == encrypted@,
        r.aes_key_hex@ == number::hex_of(key@),
        r.file_key@ == number::hex_of(name@),
        r.raw_size == bytes@.len(),
        r.raw_md5@ == number::hex_of(outside::md5_digest(bytes@)),
{
}

/// Blocks of sixteen bytes, each encrypted by itself, in a row.
pub open spec fn blocks_in_a_row(key: Seq<u8>, b: Seq<u8>) -> Seq<u8>
    decreases b.len(),
{
    if b.len() < 16 {
        Seq::empty()
    } else {
        outside::aes128_block(key, b.take(16)) + blocks_in_a_row(key, b.skip(16))
    }
}

proof fn lemma_blocks_in_a_row(key: Seq<u8>, b: Seq<u8>)
    requires
        b.len() % 16 == 0,
    ensures
        crypto::encrypted_blocks(key, b) == blocks_in_a_row(key, b),
    decreases b.len(),
{
    if b.len() >= 32 {
        let front = b.take(b.len() - 16);
        let last = b.skip(b.len() - 16);
        let rest = b.skip(16);
        lemma_blocks_in_a_row(key, front);
        lemma_blocks_in_a_row(key, rest);
        lemma_blocks_in_a_row(key, rest.take(rest.len() - 16));
        assert(front.skip(16) =~= rest.take(rest.len() - 16));
        assert(front.take(16) =~= b.take(16));
        assert(rest.skip(rest.len() - 16) =~= last);
        let one = outside::aes128_block(key, b.take(16));
        let mid = crypto::encrypted_blocks(key, rest.take(rest.len() - 16));
        let end = outside::aes128_block(key, last);
        assert((one + mid) + end =~= one + (mid + end));
    } else if b.len() == 16 {
        assert(b.take(0) =~= Seq::empty());
        assert(b.skip(0) =~= b);
        assert(b.take(16) =~= b);
        let one = outside::aes128_block(key, b);
        assert(crypto::encrypted_blocks(key, b.take(0)) =~= Seq::empty());
        assert(blocks_in_a_row(key, b.skip(16)) =~= Seq::empty());
        assert(Seq::<u8>::empty() + one =~= one + Seq::<u8>::empty());
    }
}

/// Bytes are encrypted block by block: the padded bytes are cut into blocks of sixteen, and each is
/// encrypted under the key, in order.
pub proof fn law_blocks_are_encrypted_in_order(
    key: &[u8; 16],
    plaintext: &[u8],
    r: Vec<u8>,
    padded: Vec<u8>,
)
    requires
        call_ensures(crypto::aes_128_ecb_pkcs7_encrypt, (key, plaintext), r),
        call_ensures(crypto::pkcs7_pad, (plaintext, 16), padded),
    ensures
        r@.len() == padded@.len(),
        r@ == blocks_in_a_row(key@, padded@),
{
    crypto::law_padding_is_reversible(plaintext@, 16);
    lemma_blocks_in_a_row(key@, padded@);
}

/// Padding fills up the last block, or adds one where none is open, with bytes that tell how many
/// they are; the bytes themselves stay in front.
pub proof fn law_padding_tells_its_length(input: &[u8], block_size: usize, r: Vec<u8>)
    requires
        0 < block_size <= 255,
        call_ensures(crypto::pkcs7_pad, (input, block_size), r),
    ensures
        r@.len() % block_size as nat == 0,
        input@.len() < r@.len() <= input@.len() + block_size,
        r@.take(input@.len() as int) == input@,
        forall|i: int| input@.len() <= i < r@.len() ==> r@[i] == r@.len() - input@.len(),
{
    crypto::law_padding_is_reversible(input@, block_size as int);
    assert(r@.take(input@.len() as int) =~= input@);
}

/// Whether an option names something: more than white space.
pub open spec fn names(o: Option<String>) -> bool {
    o matches Some(s) && !text::is_blank(s@)
}

proof fn lemma_names(o: Option<String>)
    ensures
        api::given(o) == if names(o) {
            Some(text::trimmed(o->Some_0@))
        } else {
            None
        },
{
    if let Some(s) = o {
        text::lemma_trimmed_empty(s@);
    }
}

/// A file goes to the address that the service names; where it names only a parameter, to the
/// configured address with that parameter and the name of the file. A refusal is told with its codes.
pub proof fn law_upload_goes_where_it_is_told(
    response: &WeixinGetUploadUrlResponse,
    cdn_base_url: &str,
    file_key: &str,
    r: Result<String, String>,
    param: &str,
    url: String,
)
    requires
        call_ensures(api::read_upload_place, (response, cdn_base_url, file_key), r),
        names(response.upload_param) ==> param@ == text::trimmed(response.upload_param->Some_0@),
        call_ensures(api::build_cdn_upload_url, (cdn_base_url, param, file_key), url),
    ensures
        ({
            let ret = match response.ret {
                Some(n) => n as int,
                None => 0,
            };
            let code = match response.errcode {
                Some(n) => n as int,
                None => 0,
            };
            if ret != 0 || code != 0 {
                r matches Err(m) && m@ == "weixin getuploadurl failed: ret="@
                    + number::signed_decimal(ret) + " errcode="@ + number::signed_decimal(code)
                    + " message="@ + match response.errmsg {
                    Some(why) => why@,
                    None => "unknown weixin upload error"@,
                }
            } else if names(response.upload_full_url) {
                r matches Ok(u) && u@ == text::trimmed(response.upload_full_url->Some_0@)
            } else if names(response.upload_param) {
                r matches Ok(u) && u@ == url@
            } else {
                r matches Err(m) && m@ == "weixin getuploadurl response missing upload target"@
            }
        }),
{
    lemma_names(response.upload_full_url);
    lemma_names(response.upload_param);
}

/// The address of an upload carries the parameter, trimmed, and the name of the file, both encoded.
pub proof fn law_upload_address_carries_both(
    cdn_base_url: &str,
    upload_param: &str,
    file_key: &str,
    r: String,
)
    requires
        call_ensures(api::build_cdn_upload_url, (cdn_base_url, upload_param, file_key), r),
    ensures
        is_below(
            r@,
            cdn_base_url@,
            "upload?encrypted_query_param="@ + encoding::percent_encoded(
                encode_utf8(text::trimmed(upload_param@)),
            ) + "&filekey="@ + encoding::percent_encoded(encode_utf8(file_key@)),
        ),
{
    let rest = "upload?encrypted_query_param="@ + encoding::percent_encoded(
        encode_utf8(text::trimmed(upload_param@)),
    ) + "&filekey="@ + encoding::percent_encoded(encode_utf8(file_key@));
    lemma_below(cdn_base_url@, rest);
    reveal_strlit("/");
    reveal_strlit("upload?encrypted_query_param=");
    reveal_strlit("/upload?encrypted_query_param=");
    assert("/upload?encrypted_query_param="@ =~= "/"@ + "upload?encrypted_query_param="@);
    assert(r@ =~= api::url_of(cdn_base_url@, rest));
}

/// An upload has ended well where the answer says so and tells where the file lies; then that is what
/// is told of the file, with its own key and size.
pub proof fn law_uploaded_file_is_told(
    upload: &Upload,
    reply: &CdnReply,
    r: Result<WeixinUploadedFile, String>,
    v: Result<WeixinUploadedVoice, String>,
)
    requires
        call_ensures(api::upload_file, (upload, reply), r),
        call_ensures(api::upload_voice, (upload, reply), v),
    ensures
        r is Ok <==> reply.success && names(reply.param),
        v is Ok <==> r is Ok,
        r matches Ok(file) ==> {
            &&& file.encrypt_query_param@ == text::trimmed(reply.param->Some_0@)
            &&& file.aes_key@ == encoding::base64_of(encode_utf8(upload.aes_key_hex@), false, true)
            &&& file.file_size == upload.raw_size
        },
        v matches Ok(voice) ==> {
            &&& voice.encrypt_query_param@ == text::trimmed(reply.param->Some_0@)
            &&& voice.aes_key@ == encoding::base64_of(encode_utf8(upload.aes_key_hex@), false, true)
        },
        !reply.success ==> (r matches Err(m) && m@ == "weixin cdn upload returned HTTP "@
            + number::decimal(reply.code as nat) + ": "@ + reply.body@),
        reply.success && !names(reply.param) ==> (r matches Err(m) && m@
            == "weixin cdn upload response missing x-encrypted-param"@),
        r is Err ==> v->Err_0@ == r->Err_0@,
{
    lemma_names(reply.param);
}

/// A response is passed on as it is where it is one of success; else its status and body are told.
pub proof fn law_response_is_passed_on(
    success: bool,
    code: u16,
    body: String,
    r: Result<String, String>,
)
    requires
        call_ensures(api::read_text_response, (success, code, body), r),
    ensures
        r is Ok <==> success,
        r matches Ok(s) ==> s@ == body@,
        r matches Err(m) ==> m@ == "weixin api returned HTTP "@ + number::decimal(code as nat)
            + ": "@ + body@,
{
}

/// Where no news came in time there are none, no error, and the same place to go on from.
pub proof fn law_silence_is_no_error(buf: &str, r: WeixinGetUpdatesResponse)
    requires
        call_ensures(api::updates_after_timeout, (buf,), r),
    ensures
        r.msgs@.len() == 0,
        r.ret == Some(0i64),
        r.errcode == Some(0i64),
        r.errmsg is None,
        r.get_updates_buf matches Some(b) && b@ == buf@,
        r.longpolling_timeout_ms is None,
{
}

/// What is agreed with the service: how long requests and uploads may take, and the numbers of the
/// kinds of uploads.
pub proof fn law_agreed_numbers()
    ensures
        api::DEFAULT_API_TIMEOUT_MS == 15_000,
        api::DEFAULT_CDN_TIMEOUT_MS == 30_000,
        api::WEIXIN_UPLOAD_MEDIA_TYPE_FILE == 3,
        api::WEIXIN_UPLOAD_MEDIA_TYPE_VOICE == 4,
{
}

/// A message goes out under a name of the client and a UUID.
pub proof fn law_messages_have_names(uuid: &[u8; 16], r: String)
    requires
        call_ensures(api::make_client_id, (uuid,), r),
    ensures
        r@ == "mimic-shrimp-rs-"@ + encoding::uuid_text(uuid@),
{
}

/// A request that is sent under a fresh identifier goes where any other goes, and carries the token.
pub proof fn law_post_goes_out_afresh(
    client: &WeixinApiClient,
    base_url: &str,
    endpoint: &str,
    token: &str,
    body_len: usize,
    timeout_ms: u64,
    r: Result<ApiRequest, String>,
    common: Result<Vec<HeaderLine>, String>,
)
    requires
        call_ensures(
            WeixinApiClient::api_post,
            (client, base_url, endpoint, token, body_len, timeout_ms),
            r,
        ),
        call_ensures(WeixinApiClient::common_headers, (client,), common),
    ensures
        r is Ok <==> common is Ok,
        r matches Ok(request) ==> {
            let n = common->Ok_0@.len() as int;
            &&& is_below(request.url@, base_url@, endpoint@)
            &&& request.timeout_ms == timeout_ms
            &&& header_is(request.headers@, n, "AuthorizationType"@, "ilink_bot_token"@)
            &&& header_is(
                request.headers@,
                n + 2,
                "content-length"@,
                number::decimal(body_len as nat),
            )
            &&& !text::is_blank(token@) ==> header_is(
                request.headers@,
                n + 3,
                "authorization"@,
                "Bearer "@ + text::trimmed(token@),
            )
        },
{
    lemma_below(base_url@, endpoint@);
    if let Ok(request) = r {
        let hs = request.headers@;
        let hv = api::headers_view(hs);
        let n = common->Ok_0@.len() as int;
        assert(api::headers_view(common->Ok_0@).len() == n);
        assert(hv.len() == hs.len());
        lemma_header_at(hs, n);
        lemma_header_at(hs, n + 2);
        lemma_header_at(hs, n + 3);
    }
}

/// A file that is made ready under a fresh key and name is that file.
pub proof fn law_file_is_made_ready_afresh(bytes: &[u8], r: Upload)
    requires
        call_ensures(api::prepare_upload, (bytes,), r),
    ensures
        r.raw_size == bytes@.len(),
        r.raw_md5@ == number::hex_of(outside::md5_digest(bytes@)),
        exists|key: Seq<u8>|
            r.aes_key_hex@ == #[trigger] number::hex_of(key) && r.encrypted@
                == crypto::encrypted_blocks(key, crypto::padded(bytes@, 16)),
{
    let (key, name) = choose|key: Seq<u8>, name: Seq<u8>|
        encoding::is_uuid_v4(key) && encoding::is_uuid_v4(name) && #[trigger] api::is_upload(
            r,
            bytes@,
            key,
            name,
        );
    assert(r.aes_key_hex@ == number::hex_of(key));
}

} // verus!
