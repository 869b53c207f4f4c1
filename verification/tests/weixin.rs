use mimic_shrimp::capability::speech::SpeechSynthesisResponse;
use mimic_shrimp::channel::reply::{ReplyEvent, ReplyStep};
use mimic_shrimp::channel::weixin::api::{
    build_cdn_upload_url, build_client_version, fresh_client_id, make_client_id, prepare_upload,
    prepare_upload_with, read_text_response, read_upload_place, updates_after_timeout, upload_file,
    upload_voice, wechat_uin, CdnReply, HeaderLine, WeixinApiClient,
};
use mimic_shrimp::channel::weixin::crypto::{aes_128_ecb_pkcs7_encrypt, hex_lower, pkcs7_pad};
use mimic_shrimp::channel::weixin::login::{
    check_login, complete_login, login_deadline, show_new_qr_code, start_login, start_login_with,
    wait_login, LoginStart, LoginStep, LoginTable,
};
use mimic_shrimp::channel::weixin::monitor::{handle_api_error, Monitor, MonitorStep};
use mimic_shrimp::channel::weixin::qr::{build_qr_code_data_url, render_qr_svg};
use mimic_shrimp::channel::weixin::service::{
    begin_incoming, extract_message_text, handle_incoming_message, read_incoming,
    read_incoming_with, reply_token, IncomingEvent, IncomingState, WeixinManager,
};
use mimic_shrimp::channel::weixin::store::{
    account_path, context_path, encode_component, find_text, read_sync_cursor,
    sync_entries, sync_path, NamedText, WeixinStore, TokenTable,
};
use mimic_shrimp::channel::weixin::supervisor::{
    supervisor_interval_ms, supervisor_restart_gap_ms, supervisor_restart_reason,
    supervisor_stale_after_ms,
};
use mimic_shrimp::channel::weixin::types::{
    WeixinAccountRecord, WeixinAccountRuntimeState, WeixinGetUpdatesResponse,
    WeixinGetUploadUrlResponse, WeixinMessage, WeixinMessageItem, WeixinQrCodeResponse,
    WeixinQrStatusResponse, WeixinTextItem, WeixinVoiceItem,
};
use mimic_shrimp::channel::ChannelKind;
use mimic_shrimp::config::channel::WeixinChannelConfig;
use mimic_shrimp::outside::QrMatrix;

fn config() -> WeixinChannelConfig {
    WeixinChannelConfig {
        enabled: true,
        base_url: "https://api.example//".to_string(),
        cdn_base_url: "https://cdn.example/c2c/".to_string(),
        state_dir: "./state".to_string(),
        route_tag: None,
        ilink_app_id: "bot".to_string(),
        bot_type: "3".to_string(),
        login_timeout_ms: 480_000,
        long_poll_timeout_ms: 35_000,
        retry_delay_ms: 2_000,
        backoff_delay_ms: 30_000,
        session_pause_minutes: 60,
        supervisor_interval_ms: 30_000,
        supervisor_stale_after_ms: 0,
        supervisor_restart_gap_ms: 0,
    }
}

fn header<'a>(headers: &'a [HeaderLine], name: &str) -> Option<&'a str> {
    headers.iter().find(|h| h.name == name).map(|h| h.value.as_str())
}

fn client() -> WeixinApiClient {
    WeixinApiClient::new(config(), "1.2.300")
}

#[test]
fn client_version_is_packed_into_bytes() {
    assert_eq!(build_client_version("1.2.3"), Ok(0x01_02_03));
    assert_eq!(build_client_version("300.2"), Ok(0x2c_02_00));
    assert_eq!(build_client_version("1.2.3.4"), Ok(0x01_02_03));
    assert_eq!(
        build_client_version("1.x.y").unwrap_err(),
        "invalid client version 1.x.y: invalid digit found in string"
    );
    assert_eq!(
        build_client_version("").unwrap_err(),
        "invalid client version : cannot parse integer from empty string"
    );
    assert_eq!(
        build_client_version("4294967296").unwrap_err(),
        "invalid client version 4294967296: number too large to fit in target type"
    );
}

#[test]
fn requests_are_addressed_and_signed() {
    let client = client();
    let qr = client.fetch_qr_code("a b/ü").unwrap();
    assert_eq!(qr.url, "https://api.example/ilink/bot/get_bot_qrcode?bot_type=a%20b%2F%C3%BC");
    assert_eq!(qr.timeout_ms, 5_000);
    assert_eq!(header(&qr.headers, "iLink-App-Id"), Some("bot"));
    assert_eq!(header(&qr.headers, "iLink-App-ClientVersion"), Some("66092"));
    assert_eq!(header(&qr.headers, "SKRouteTag"), None);
    let poll = client.poll_qr_status("https://h", "x~y", 9).unwrap();
    assert_eq!(poll.url, "https://h/ilink/bot/get_qrcode_status?qrcode=x~y");
    let post = client
        .api_post_with("https://h/", "ilink/bot/sendmessage", " tok ", 12, 15_000, &[0u8; 16])
        .unwrap();
    assert_eq!(post.url, "https://h/ilink/bot/sendmessage");
    assert_eq!(header(&post.headers, "AuthorizationType"), Some("ilink_bot_token"));
    assert_eq!(header(&post.headers, "X-WECHAT-UIN"), Some("MA=="));
    assert_eq!(header(&post.headers, "content-length"), Some("12"));
    assert_eq!(header(&post.headers, "authorization"), Some("Bearer tok"));
    assert_eq!(header(&post.headers, "content-type"), Some("application/json"));
    let unsigned = client.api_post("https://h", "e", " ", 0, 1).unwrap();
    assert_eq!(header(&unsigned.headers, "authorization"), None);
    assert!(header(&unsigned.headers, "X-WECHAT-UIN").is_some());
    let mut tagged = config();
    tagged.route_tag = Some("t".to_string());
    let tagged = WeixinApiClient::new(tagged, "1");
    assert_eq!(header(&tagged.common_headers().unwrap(), "SKRouteTag"), Some("t"));
    assert!(WeixinApiClient::new(config(), "v1").fetch_qr_code("3").is_err());
}

#[test]
fn identifier_is_a_number_in_base64() {
    let mut uuid = [0u8; 16];
    uuid[2] = 1;
    uuid[3] = 2;
    assert_eq!(wechat_uin(&uuid), "MjU4");
    assert_eq!(make_client_id(&[0u8; 16]), "mimic-shrimp-rs-00000000-0000-0000-0000-000000000000");
    assert_ne!(fresh_client_id(), fresh_client_id());
}

#[test]
fn messages_go_out_as_bodies() {
    let client = client();
    let text = client.send_text_message("u", "c", "hello", Some("ctx"));
    assert_eq!(text.msg.to_user_id, "u");
    assert_eq!((text.msg.message_type, text.msg.message_state), (2, 2));
    assert_eq!(text.msg.context_token, Some("ctx"));
    assert_eq!(text.msg.item_list[0].item_type, 1);
    assert_eq!(text.msg.item_list[0].text_item.as_ref().unwrap().text, "hello");
    assert_eq!(text.base_info.channel_version, "1.2.300");
    let upload = prepare_upload_with(b"abc", &[1u8; 16], &[2u8; 16]);
    let reply = CdnReply {
        success: true,
        code: 200,
        param: Some(" p ".to_string()),
        body: String::new(),
    };
    let file = upload_file(&upload, &reply).unwrap();
    assert_eq!(file.encrypt_query_param, "p");
    assert_eq!(file.file_size, 3);
    let sent = client.send_file_message("u", "c", "n.wav", &file, None);
    let item = sent.msg.item_list[0].file_item.as_ref().unwrap();
    assert_eq!(item.len.as_deref(), Some("3"));
    assert_eq!(item.file_name, Some("n.wav"));
    assert_eq!(item.media.encrypt_type, Some(1));
    let voice = upload_voice(&upload, &reply).unwrap();
    let sent = client.send_voice_message("u", "c", &voice, None, Some(3), Some(16_000), Some(9));
    let item = sent.msg.item_list[0].voice_item.as_ref().unwrap();
    assert_eq!((item.encode_type, item.bits_per_sample), (Some(7), Some(16)));
    assert_eq!((item.sample_rate, item.playtime), (Some(16_000), Some(9)));
    assert_eq!(client.get_updates("buf").get_updates_buf, "buf");
}

#[test]
fn uploads_are_encrypted_and_digested() {
    let upload = prepare_upload_with(b"abc", &[0x0fu8; 16], &[0xa0u8; 16]);
    assert_eq!(upload.file_key, "a0a0a0a0a0a0a0a0a0a0a0a0a0a0a0a0");
    assert_eq!(upload.aes_key_hex, "0f0f0f0f0f0f0f0f0f0f0f0f0f0f0f0f");
    assert_eq!(upload.raw_md5, "900150983cd24fb0d6963f7d28e17f72");
    assert_eq!(upload.encrypted.len(), 16);
    let client = client();
    let request = client.upload_request(&upload, 3, "u");
    assert_eq!((request.rawsize, request.filesize, request.media_type), (3, 16, 3));
    assert!(request.no_need_thumb);
    assert_ne!(prepare_upload(b"abc").file_key, prepare_upload(b"abc").file_key);
}

#[test]
fn aes_agrees_with_the_published_example() {
    let key = [
        0x00, 0x01, 0x02, 0x03, 0x04, 0x05, 0x06, 0x07, 0x08, 0x09, 0x0a, 0x0b, 0x0c, 0x0d, 0x0e,
        0x0f,
    ];
    let plain = [
        0x00, 0x11, 0x22, 0x33, 0x44, 0x55, 0x66, 0x77, 0x88, 0x99, 0xaa, 0xbb, 0xcc, 0xdd, 0xee,
        0xff,
    ];
    let cipher = aes_128_ecb_pkcs7_encrypt(&key, &plain);
    assert_eq!(cipher.len(), 32);
    assert_eq!(hex_lower(&cipher[..16]), "69c4e0d86a7b0430d8cdb78070b4c55a");
}

#[test]
fn padding_can_be_taken_away() {
    for n in 0..40usize {
        let bytes: Vec<u8> = (0..n as u8).collect();
        let padded = pkcs7_pad(&bytes, 16);
        assert_eq!(padded.len() % 16, 0);
        let pad = usize::from(*padded.last().unwrap());
        assert!(pad >= 1 && pad <= 16);
        assert_eq!(&padded[..padded.len() - pad], &bytes[..]);
    }
    assert_eq!(pkcs7_pad(&[7, 7], 4), vec![7, 7, 2, 2]);
    assert_eq!(hex_lower(&[0x00, 0x9f, 0xa5]), "009fa5");
}

#[test]
fn upload_place_is_read() {
    let response = |ret: Option<i64>, full: Option<&str>, param: Option<&str>| {
        WeixinGetUploadUrlResponse {
            ret,
            errcode: None,
            errmsg: None,
            upload_full_url: full.map(str::to_string),
            upload_param: param.map(str::to_string),
        }
    };
    let read = |r| read_upload_place(&r, "https://cdn/", "k");
    assert_eq!(read(response(None, Some(" u "), Some("p"))), Ok("u".to_string()));
    assert_eq!(
        read(response(Some(0), Some(" "), Some(" a&b "))),
        Ok("https://cdn/upload?encrypted_query_param=a%26b&filekey=k".to_string())
    );
    assert_eq!(
        read(response(None, None, None)).unwrap_err(),
        "weixin getuploadurl response missing upload target"
    );
    assert_eq!(
        read(response(Some(-3), Some("u"), None)).unwrap_err(),
        "weixin getuploadurl failed: ret=-3 errcode=0 message=unknown weixin upload error"
    );
    assert_eq!(build_cdn_upload_url("b", " p ", "k k"), "b/upload?encrypted_query_param=p&filekey=k%20k");
}

#[test]
fn failed_uploads_are_told() {
    let upload = prepare_upload_with(b"", &[0u8; 16], &[0u8; 16]);
    let reply = |success, param: Option<&str>| CdnReply {
        success,
        code: 403,
        param: param.map(str::to_string),
        body: "no".to_string(),
    };
    assert_eq!(
        upload_file(&upload, &reply(false, Some("p"))).unwrap_err(),
        "weixin cdn upload returned HTTP 403: no"
    );
    assert_eq!(
        upload_voice(&upload, &reply(true, Some(" "))).unwrap_err(),
        "weixin cdn upload response missing x-encrypted-param"
    );
    assert_eq!(
        read_text_response(false, 502, "bad".to_string()).unwrap_err(),
        "weixin api returned HTTP 502: bad"
    );
    assert_eq!(read_text_response(true, 200, "ok".to_string()), Ok("ok".to_string()));
    let quiet = updates_after_timeout("here");
    assert_eq!(quiet.get_updates_buf.as_deref(), Some("here"));
    assert!(quiet.msgs.is_empty());
}

#[test]
fn qr_codes_are_drawn() {
    let mut modules = vec![false; 21 * 21];
    modules[0] = true;
    modules[21 * 2 + 1] = true;
    let svg = render_qr_svg(&QrMatrix { size: 21, modules }, 8);
    assert!(svg.starts_with("<svg xmlns=\"http://www.w3.org/2000/svg\" viewBox=\"0 0 37 37\""));
    assert!(svg.contains("<path d=\"M8,8h1v1h-1zM9,10h1v1h-1z\" fill=\"#111111\"/>"));
    let url = build_qr_code_data_url(" https://example.com ").expect("picture");
    assert!(url.starts_with("data:image/svg+xml;base64,PHN2ZyB4bWxucz0i"));
    assert_eq!(build_qr_code_data_url("  "), None);
    assert_eq!(build_qr_code_data_url(&"x".repeat(5_000)), None);
}

fn qr(code: &str) -> WeixinQrCodeResponse {
    WeixinQrCodeResponse { qrcode: code.to_string(), qrcode_img_content: format!("https://q/{code}") }
}

fn status(s: &str) -> WeixinQrStatusResponse {
    WeixinQrStatusResponse {
        status: s.to_string(),
        bot_token: None,
        ilink_bot_id: None,
        baseurl: None,
        ilink_user_id: None,
        redirect_host: None,
    }
}

#[test]
fn login_needs_the_channel() {
    let table = LoginTable::default();
    assert_eq!(
        start_login(false, &table, false, &None, 0).unwrap_err(),
        "WEIXIN_ENABLED is false"
    );
    assert_eq!(
        login_deadline(false, None, 1, 0).unwrap_err(),
        "WEIXIN_ENABLED is false"
    );
    assert_eq!(login_deadline(true, Some(10), 480_000, 5), Ok(1_005));
    assert_eq!(login_deadline(true, None, 480_000, 5), Ok(480_005));
}

#[test]
fn qr_code_is_shown_again_while_fresh() {
    let mut table = LoginTable::default();
    let key = match start_login_with(true, &table, false, &None, 100, &[9u8; 16]).unwrap() {
        LoginStart::NeedQrCode { session_key } => session_key,
        LoginStart::Ready(_) => panic!("no login is under way"),
    };
    assert_eq!(key, "09090909-0909-0909-0909-090909090909");
    let shown = show_new_qr_code(&mut table, &key, qr("one"), "https://api", 100);
    assert_eq!(shown.qr_code_url.as_deref(), Some("https://q/one"));
    assert!(shown.qr_code_data_url.is_some());
    assert_eq!(shown.message, "使用微信扫描二维码完成连接。");
    let account = Some(key.clone());
    match start_login(true, &table, false, &account, 300_099).unwrap() {
        LoginStart::Ready(r) => {
            assert_eq!(r.qr_code_url.as_deref(), Some("https://q/one"));
            assert_eq!(r.message, "二维码已就绪，请使用微信扫描。");
        }
        _ => panic!("the code can still be scanned"),
    }
    assert!(matches!(
        start_login(true, &table, true, &account, 101).unwrap(),
        LoginStart::NeedQrCode { .. }
    ));
    assert!(matches!(
        start_login(true, &table, false, &account, 300_100).unwrap(),
        LoginStart::NeedQrCode { .. }
    ));
}

#[test]
fn login_is_waited_for() {
    let mut table = LoginTable::default();
    let gone = check_login(&mut table, "k", 0);
    assert!(matches!(gone, LoginStep::Ended(r) if r.message == "当前没有进行中的微信登录会话。"));
    show_new_qr_code(&mut table, "k", qr("one"), "https://api", 1_000);
    show_new_qr_code(&mut table, "other", qr("two"), "https://api", 1_000);
    assert!(matches!(check_login(&mut table, "k", 2_000),
        LoginStep::Poll { api_base_url, qrcode } if api_base_url == "https://api" && qrcode == "one"));
    for s in ["wait", "scaned"] {
        assert!(matches!(
            wait_login(&mut table, "k", &status(s), "https://api", 2_000, 9_000),
            LoginStep::Sleep
        ));
    }
    let mut moved = status("scaned_but_redirect");
    moved.redirect_host = Some("other.host".to_string());
    wait_login(&mut table, "k", &moved, "https://api", 2_000, 9_000);
    assert_eq!(table.get("k").unwrap().current_api_base_url, "https://other.host");
    assert!(matches!(
        wait_login(&mut table, "k", &status("wait"), "https://api", 9_000, 9_000),
        LoginStep::Ended(r) if r.message == "等待扫码确认超时，请继续使用当前二维码或重新生成。"
    ));
    assert!(matches!(
        wait_login(&mut table, "k", &status("odd"), "https://api", 0, 1),
        LoginStep::Failed(m) if m == "unsupported qr login status: odd"
    ));
    let mut confirmed = status("confirmed");
    assert!(matches!(
        wait_login(&mut table, "k", &confirmed, "https://api", 0, 1),
        LoginStep::Failed(m) if m == "login confirmed but ilink_bot_id is missing"
    ));
    confirmed.ilink_bot_id = Some("bot".to_string());
    assert!(matches!(
        wait_login(&mut table, "k", &confirmed, "https://api", 0, 1),
        LoginStep::Failed(m) if m == "login confirmed but bot_token is missing"
    ));
    confirmed.bot_token = Some("tok".to_string());
    confirmed.ilink_user_id = Some("me".to_string());
    let account = match wait_login(&mut table, "k", &confirmed, "https://api", 77, 1) {
        LoginStep::Confirmed(account) => account,
        _ => panic!("confirmed"),
    };
    assert_eq!((account.base_url.as_str(), account.saved_at_ms), ("https://api", 77));
    assert!(table.get("k").is_some());
    let result = complete_login(&mut table, "k", &account);
    assert!(result.connected);
    assert_eq!(result.account_id.as_deref(), Some("bot"));
    assert_eq!(result.linked_user_id.as_deref(), Some("me"));
    assert_eq!(result.message, "与微信连接成功。");
    assert!(table.get("k").is_none());
    assert!(table.get("other").is_some());
}

#[test]
fn expired_codes_are_dropped() {
    let mut table = LoginTable::default();
    show_new_qr_code(&mut table, "k", qr("one"), "https://api", 1_000);
    assert!(matches!(check_login(&mut table, "k", 301_000),
        LoginStep::Ended(r) if r.message == "二维码已过期，请重新生成。"));
    assert!(table.get("k").is_none());
    show_new_qr_code(&mut table, "k", qr("two"), "https://api", 1_000);
    assert!(matches!(wait_login(&mut table, "k", &status("expired"), "", 0, 1),
        LoginStep::Ended(r) if !r.connected));
    assert!(table.get("k").is_none());
}

fn account(id: &str, saved_at_ms: u64, token: &str) -> WeixinAccountRecord {
    WeixinAccountRecord {
        account_id: id.to_string(),
        bot_token: token.to_string(),
        base_url: "https://api".to_string(),
        linked_user_id: None,
        saved_at_ms,
    }
}

#[test]
fn accounts_are_listed_latest_first() {
    let mut table = WeixinStore::new("./state".to_string());
    table.mark_runtime_started("b", 5);
    table.mark_runtime_paused_until("b", 99);
    let accounts =
        vec![account("a", 1, " "), account("b", 3, "t"), account("c", 2, "t"), account("d", 3, "t")];
    let shown = table.list_accounts(&accounts);
    let ids: Vec<&str> = shown.iter().map(|s| s.account_id.as_str()).collect();
    assert_eq!(ids, vec!["b", "d", "c", "a"]);
    assert!(shown[0].running);
    assert_eq!(shown[0].paused_until_ms, Some(99));
    assert!(!shown[3].configured && shown[2].configured);
    assert!(!shown[1].running);
}

#[test]
fn files_have_safe_names() {
    assert_eq!(encode_component("a/b?ü"), "YS9iP8O8");
    assert_eq!(encode_component("~~~"), "fn5-");
    assert_eq!(account_path("id"), "accounts/aWQ.json");
    assert_eq!(sync_path("id"), "sync/aWQ.json");
    assert_eq!(context_path("id"), "context/aWQ.json");
}

#[test]
fn cursor_is_kept_and_read_back() {
    let entries = sync_entries("cur", 1_234);
    assert_eq!(read_sync_cursor(&entries).as_deref(), Some("cur"));
    assert_eq!(find_text(&entries, "updated_at_ms").as_deref(), Some("1234"));
    assert_eq!(find_text(&entries, "x"), None);
}

#[test]
fn tokens_are_remembered_by_account_and_user() {
    let mut table = TokenTable::default();
    table.set_context_token("a", "u", "1");
    table.set_context_token("a", "v", "2");
    table.set_context_token("b", "u", "3");
    table.set_context_token("a", "u", "4");
    assert_eq!(table.entries.len(), 3);
    assert_eq!(table.get_context_token("a", "u").as_deref(), Some("4"));
    assert_eq!(table.get_context_token("b", "v"), None);
    let kept = table.context_tokens("a");
    assert_eq!(kept.len(), 2);
    let mut other = TokenTable::default();
    other.set_context_token("a", "w", "old");
    other.set_context_token("b", "u", "5");
    other.load_context_tokens("a", &kept);
    assert_eq!(other.get_context_token("a", "u").as_deref(), Some("4"));
    assert_eq!(other.get_context_token("a", "w"), None);
    assert_eq!(other.get_context_token("b", "u").as_deref(), Some("5"));
    other.load_context_tokens("a", &Vec::<NamedText>::new());
    assert_eq!(other.get_context_token("a", "u"), None);
}

#[test]
fn monitors_are_noted() {
    let mut table = WeixinStore::new("./state".to_string());
    table.mark_runtime_started("a", 10);
    table.mark_runtime_error("a", "boom".to_string());
    table.mark_runtime_event("a", false, 20);
    let state = table.load_runtime_state("a");
    assert!(state.running);
    assert_eq!((state.last_event_at_ms, state.last_inbound_at_ms), (Some(20), None));
    assert_eq!(state.last_error, None);
    table.mark_runtime_event("a", true, 30);
    table.mark_runtime_restart_requested("a", "why", 40);
    table.mark_runtime_stopped("a");
    let state = table.load_runtime_state("a");
    assert_eq!(state.last_inbound_at_ms, Some(30));
    assert_eq!(state.last_restart_at_ms, Some(40));
    assert_eq!(state.last_error.as_deref(), Some("supervisor restart requested: why"));
    assert!(!state.running);
    assert!(!table.load_runtime_state("b").running);
}

#[test]
fn supervisor_restarts_what_is_gone_or_stale() {
    let c = config();
    assert_eq!(supervisor_stale_after_ms(&c), 140_000);
    assert_eq!(supervisor_restart_gap_ms(&c), 60_000);
    assert_eq!(supervisor_interval_ms(&c), 30_000);
    let reason = |state: &WeixinAccountRuntimeState, running, now| {
        supervisor_restart_reason(&c, state, running, now)
    };
    let mut state = WeixinAccountRuntimeState::default();
    assert_eq!(reason(&state, true, 1_000_000), None);
    assert_eq!(
        reason(&state, false, 0).as_deref(),
        Some("monitor task is missing or already finished")
    );
    state.paused_until_ms = Some(10);
    assert_eq!(reason(&state, false, 9), None);
    assert!(reason(&state, false, 10).is_some());
    state.last_start_at_ms = Some(1_000);
    assert_eq!(reason(&state, true, 140_999), None);
    assert_eq!(
        reason(&state, true, 141_000).as_deref(),
        Some("stale monitor heartbeat for 140000 ms")
    );
    state.last_restart_at_ms = Some(100_000);
    assert_eq!(reason(&state, true, 141_000), None);
    assert!(reason(&state, true, 160_000).is_some());
    let mut c = config();
    c.supervisor_stale_after_ms = 7;
    c.supervisor_restart_gap_ms = 8;
    c.supervisor_interval_ms = 1;
    assert_eq!(supervisor_stale_after_ms(&c), 7);
    assert_eq!(supervisor_restart_gap_ms(&c), 8);
    assert_eq!(supervisor_interval_ms(&c), 5_000);
}

fn news(ret: Option<i64>, errcode: Option<i64>, cursor: &str) -> WeixinGetUpdatesResponse {
    WeixinGetUpdatesResponse {
        ret,
        errcode,
        errmsg: None,
        msgs: vec![],
        get_updates_buf: Some(cursor.to_string()),
        longpolling_timeout_ms: Some(0),
    }
}

#[test]
fn monitor_goes_on_from_what_was_kept() {
    let mut monitor = Monitor::new(None, 35_000);
    assert!(matches!(monitor.next_step(0),
        MonitorStep::Poll { get_updates_buf, timeout_ms: 35_000 } if get_updates_buf.is_empty()));
    let mut payload = news(None, None, "c1");
    payload.longpolling_timeout_ms = Some(9);
    let outcome = monitor.on_updates(&payload, 0, 60);
    assert!(outcome.accepted && outcome.error.is_none());
    assert_eq!(outcome.cursor.as_deref(), Some("c1"));
    assert_eq!(monitor.next_timeout_ms, 9);
    let note = monitor.on_cursor_saved("c1".to_string(), Err("full".to_string()));
    assert_eq!(note.as_deref(), Some("failed to persist sync cursor: full"));
    assert_eq!(monitor.get_updates_buf, "");
    assert_eq!(monitor.on_cursor_saved("c1".to_string(), Ok(())), None);
    assert_eq!(monitor.get_updates_buf, "c1");
    assert_eq!(monitor.on_updates(&news(None, None, ""), 0, 60).cursor, None);
}

#[test]
fn expired_session_pauses_the_monitor() {
    let mut monitor = Monitor::new(Some("c".to_string()), 1);
    let outcome = monitor.on_updates(&news(Some(-14), None, "x"), 1_000, 2);
    assert!(!outcome.accepted);
    assert_eq!(
        outcome.error.as_deref(),
        Some("weixin session expired, pausing until 121000")
    );
    assert!(matches!(monitor.next_step(21_000), MonitorStep::Sleep { ms: 100_000 }));
    assert!(matches!(monitor.next_step(121_000), MonitorStep::Poll { .. }));
    assert_eq!(monitor.paused_until_ms, None);
    let other = handle_api_error(&news(Some(1), Some(-2), ""), 0, 60);
    assert_eq!(
        other.note.as_deref(),
        Some("weixin getupdates failed: ret=1 errcode=-2 message=unknown weixin getupdates error")
    );
    assert_eq!(other.pause_until_ms, None);
}

#[test]
fn third_failure_backs_off() {
    let mut monitor = Monitor::new(None, 1);
    let sleeps: Vec<u64> = (0..4)
        .map(|_| monitor.on_failure("e".to_string(), 2_000, 30_000).sleep_ms)
        .collect();
    assert_eq!(sleeps, vec![2_000, 2_000, 30_000, 2_000]);
    monitor.on_updates(&news(None, None, ""), 0, 60);
    assert_eq!(monitor.consecutive_failures, 0);
}

fn item(item_type: u8, text: Option<&str>, voice: Option<&str>) -> WeixinMessageItem {
    WeixinMessageItem {
        item_type,
        text_item: text.map(|t| WeixinTextItem { text: Some(t.to_string()) }),
        voice_item: voice.map(|t| WeixinVoiceItem { text: Some(t.to_string()) }),
    }
}

fn message(items: Vec<WeixinMessageItem>) -> WeixinMessage {
    WeixinMessage {
        message_id: Some(42),
        from_user_id: Some("peer".to_string()),
        item_list: items,
        context_token: None,
    }
}

#[test]
fn first_item_that_says_something_counts() {
    let text = |items| extract_message_text(&message(items));
    assert_eq!(text(vec![item(2, Some("x"), None), item(1, Some("  "), None), item(3, None, Some(" v "))]).as_deref(), Some("v"));
    assert_eq!(text(vec![item(1, None, Some("x"))]), None);
    assert_eq!(text(vec![]), None);
}

#[test]
fn messages_are_read() {
    let mut m = message(vec![item(1, Some(" hi "), None)]);
    m.context_token = Some(" ".to_string());
    let read = read_incoming("acc", &m).expect("worthy");
    assert_eq!(read.inbound.channel, ChannelKind::Weixin);
    assert_eq!(read.inbound.message_id, "42");
    assert_eq!(read.inbound.session_id, "weixin:acc:peer");
    assert_eq!(read.inbound.text, "hi");
    assert_eq!(read.inbound.chat_type.as_deref(), Some("direct"));
    assert!(!read.spoken);
    assert_eq!(read.new_token, None);
    m.message_id = None;
    let read = read_incoming_with("acc", &m, &[0u8; 16]).unwrap();
    assert_eq!(read.inbound.message_id, "00000000-0000-0000-0000-000000000000");
    m.from_user_id = Some(" ".to_string());
    assert!(read_incoming("acc", &m).is_none());
    let mut table = TokenTable::default();
    table.set_context_token("acc", "peer", "t");
    assert_eq!(reply_token(&m, &table, "acc", "peer").as_deref(), Some(" "));
    m.context_token = None;
    assert_eq!(reply_token(&m, &table, "acc", "peer").as_deref(), Some("t"));
}

#[test]
fn spoken_messages_get_a_sound_file() {
    let m = message(vec![item(3, None, Some("How can I improve my pronunciation today?"))]);
    let incoming = read_incoming("acc", &m).unwrap();
    assert!(incoming.spoken);
    let state = begin_incoming();
    let state = handle_incoming_message(
        &incoming,
        state,
        IncomingEvent::Found(ReplyEvent::Lesson(None)),
    );
    assert!(matches!(&state, IncomingState::Finding { step: ReplyStep::AskShadowing }));
    let state = handle_incoming_message(
        &incoming,
        state,
        IncomingEvent::Found(ReplyEvent::Shadowing(Some(
            "Try reading the focus sentence one more time.".to_string(),
        ))),
    );
    assert!(matches!(&state, IncomingState::SendText { .. }));
    let state = handle_incoming_message(
        &incoming,
        state,
        IncomingEvent::TextSent { speech_configured: true, now_ms: 5 },
    );
    match &state {
        IncomingState::Speak { speech, file_name } => {
            assert_eq!(file_name, "english-reply-5.wav");
            assert_eq!(speech.sample_rate, Some(32_000));
            assert_eq!(speech.response_format.as_deref(), Some("wav"));
        }
        _ => panic!("not spoken"),
    }
    let response = SpeechSynthesisResponse {
        model: "m".to_string(),
        voice: "v".to_string(),
        response_format: "wav".to_string(),
        content_type: "audio/wav".to_string(),
        audio_base64: "UklGRg==".to_string(),
        byte_len: 4,
        trace_id: None,
    };
    let state = handle_incoming_message(&incoming, state, IncomingEvent::Spoken(response));
    assert!(matches!(&state, IncomingState::Upload { bytes, .. } if bytes == b"RIFF"));
    let done = handle_incoming_message(
        &incoming,
        state,
        IncomingEvent::SpeechFailed { error: "full".to_string() },
    );
    assert!(matches!(done, IncomingState::Done { warning: Some(w) }
        if w == "failed to send synthesized weixin file reply: full"));
}

#[test]
fn written_messages_get_text_only() {
    let m = message(vec![item(1, Some("How can I improve my pronunciation today?"), None)]);
    let incoming = read_incoming("acc", &m).unwrap();
    let state = handle_incoming_message(
        &incoming,
        begin_incoming(),
        IncomingEvent::Found(ReplyEvent::Lesson(None)),
    );
    let state = handle_incoming_message(
        &incoming,
        state,
        IncomingEvent::Found(ReplyEvent::Answered("Try reading it one more time today.".to_string())),
    );
    let done = handle_incoming_message(
        &incoming,
        state,
        IncomingEvent::TextSent { speech_configured: true, now_ms: 5 },
    );
    assert!(matches!(done, IncomingState::Done { warning: None }));
}

#[test]
fn manager_holds_the_channel_together() {
    let mut manager = WeixinManager::new(config(), "0.1.0");
    assert!(manager.is_enabled());
    assert_eq!(manager.config().bot_type, "3");
    assert_eq!(manager.api().client_version, "0.1.0");
    assert_eq!(manager.store.state_dir, "./state");
    let key = match manager.start_login(false, &Some("acc".to_string()), 5).unwrap() {
        LoginStart::NeedQrCode { session_key } => session_key,
        LoginStart::Ready(_) => panic!("no login is under way"),
    };
    manager.show_new_qr_code(&key, qr("one"), 5);
    assert_eq!(manager.logins.get("acc").unwrap().current_api_base_url, "https://api.example//");
    let mut confirmed = status("confirmed");
    confirmed.ilink_bot_id = Some("bot".to_string());
    confirmed.bot_token = Some("tok".to_string());
    let account = match manager.wait_login(&key, &confirmed, 9, 10) {
        LoginStep::Confirmed(account) => account,
        _ => panic!("confirmed"),
    };
    let kept = vec![NamedText { name: "peer".to_string(), value: "t".to_string() }];
    assert!(manager.complete_login(&key, &account, &kept).connected);
    assert_eq!(manager.tokens.get_context_token("bot", "peer").as_deref(), Some("t"));
    assert!(manager.supervisor_restart_reason("bot", false, 9).is_some());
    manager.store.mark_runtime_started("bot", 9);
    assert!(manager.list_accounts(&vec![account])[0].running);
    assert_eq!(
        manager.restart_account(None, "x").unwrap_err(),
        "weixin account not found: x"
    );
    assert!(manager.restart_account(Some(self::account("bot", 1, "t")), "bot").is_ok());
    assert!(!manager.store.load_runtime_state("bot").running);
}
