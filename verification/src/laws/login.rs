//! What holds of logging in to Weixin by QR code.

use vstd::prelude::*;
use vstd::string::*;

use crate::channel::weixin::login;
use crate::channel::weixin::login::{LoginStart, LoginStep, LoginTable};
use crate::channel::weixin::qr;
use crate::channel::weixin::service::WeixinManager;
use crate::channel::weixin::store;
use crate::channel::weixin::store::NamedText;
use crate::channel::weixin::types::{
    WeixinAccountRecord, WeixinActiveLogin, WeixinLoginStartResult, WeixinLoginWaitResult,
    WeixinQrCodeResponse, WeixinQrStatusResponse,
};
use crate::config::channel::WeixinChannelConfig;
use crate::encoding;
use crate::text;

verus! {

proof fn lemma_statuses_differ()
    ensures
        "wait"@.len() == 4,
        "scaned"@.len() == 6,
        "scaned_but_redirect"@.len() == 19,
        "expired"@.len() == 7,
        "confirmed"@.len() == 9,
{
    reveal_strlit("wait");
    reveal_strlit("scaned");
    reveal_strlit("scaned_but_redirect");
    reveal_strlit("expired");
    reveal_strlit("confirmed");
}

/// A confirmed login gives the account that the service named: its bot, its token and its user, at
/// the address that the service named for it, or at the configured one only where it named none.
pub proof fn law_account_is_the_one_that_was_named(
    table: &mut LoginTable,
    session_key: &str,
    status: &WeixinQrStatusResponse,
    base_url: &str,
    now_ms: u64,
    deadline_ms: u64,
    r: LoginStep,
)
    requires
        call_ensures(
            login::wait_login,
            (table, session_key, status, base_url, now_ms, deadline_ms),
            r,
        ),
    ensures
        r is Confirmed <==> status.status@ == "confirmed"@ && status.ilink_bot_id is Some
            && status.bot_token is Some,
        r matches LoginStep::Confirmed(account) ==> {
            &&& account.account_id@ == status.ilink_bot_id->Some_0@
            &&& account.bot_token@ == status.bot_token->Some_0@
            &&& status.baseurl matches Some(url) ==> account.base_url@ == url@
            &&& status.baseurl is None ==> account.base_url@ == base_url@
            &&& status.ilink_user_id matches Some(user) ==> (
            account.linked_user_id matches Some(linked) && linked@ == user@)
            &&& status.ilink_user_id is None ==> account.linked_user_id is None
            &&& account.saved_at_ms == now_ms
        },
        status.status@ == "confirmed"@ && status.ilink_bot_id is None ==> (
        r matches LoginStep::Failed(m) && m@ == "login confirmed but ilink_bot_id is missing"@),
        status.status@ == "confirmed"@ && status.ilink_bot_id is Some && status.bot_token is None
            ==> (r matches LoginStep::Failed(m) && m@
            == "login confirmed but bot_token is missing"@),
{
    lemma_statuses_differ();
}

/// The same, asked through the manager: the configured address is that of its settings.
pub proof fn law_manager_keeps_the_named_account(
    manager: &mut WeixinManager,
    session_key: &str,
    status: &WeixinQrStatusResponse,
    now_ms: u64,
    deadline_ms: u64,
    r: LoginStep,
)
    requires
        call_ensures(
            WeixinManager::wait_login,
            (manager, session_key, status, now_ms, deadline_ms),
            r,
        ),
    ensures
        r is Confirmed <==> status.status@ == "confirmed"@ && status.ilink_bot_id is Some
            && status.bot_token is Some,
        r matches LoginStep::Confirmed(account) ==> {
            &&& account.account_id@ == status.ilink_bot_id->Some_0@
            &&& account.bot_token@ == status.bot_token->Some_0@
            &&& status.baseurl matches Some(url) ==> account.base_url@ == url@
            &&& status.baseurl is None ==> account.base_url@ == old(manager).api.config.base_url@
            &&& account.saved_at_ms == now_ms
        },
        final(manager).api == old(manager).api,
        final(manager).store == old(manager).store,
        final(manager).tokens == old(manager).tokens,
{
    lemma_statuses_differ();
}

/// As long as a code waits to be scanned or confirmed, waiting goes on until its time is up.
pub proof fn law_waiting_goes_on(
    table: &mut LoginTable,
    session_key: &str,
    status: &WeixinQrStatusResponse,
    base_url: &str,
    now_ms: u64,
    deadline_ms: u64,
    r: LoginStep,
)
    requires
        call_ensures(
            login::wait_login,
            (table, session_key, status, base_url, now_ms, deadline_ms),
            r,
        ),
    ensures
        r is Sleep <==> now_ms < deadline_ms && (status.status@ == "wait"@ || status.status@
            == "scaned"@ || status.status@ == "scaned_but_redirect"@),
        now_ms >= deadline_ms && (status.status@ == "wait"@ || status.status@ == "scaned"@
            || status.status@ == "scaned_but_redirect"@) ==> (r matches LoginStep::Ended(result)
            && !result.connected && result.account_id is None && result.message@
            == "等待扫码确认超时，请继续使用当前二维码或重新生成。"@),
        status.status@ == "expired"@ ==> (r matches LoginStep::Ended(result) && !result.connected
            && result.account_id is None && result.message@
            == "二维码已过期，请重新生成。"@),
        !(status.status@ == "wait"@ || status.status@ == "scaned"@ || status.status@
            == "scaned_but_redirect"@ || status.status@ == "expired"@ || status.status@
            == "confirmed"@) ==> (r matches LoginStep::Failed(m) && m@
            == "unsupported qr login status: "@ + status.status@),
{
    lemma_statuses_differ();
}

/// A login whose code has expired is dropped; one whose code has moved is asked for at the host that
/// was named from then on, by the same code and with the same age; any other stays as it is, and so
/// do the logins of others.
pub proof fn law_login_follows_its_code(
    table: &mut LoginTable,
    session_key: &str,
    status: &WeixinQrStatusResponse,
    base_url: &str,
    now_ms: u64,
    deadline_ms: u64,
    r: LoginStep,
)
    requires
        call_ensures(
            login::wait_login,
            (table, session_key, status, base_url, now_ms, deadline_ms),
            r,
        ),
    ensures
        status.status@ == "expired"@ ==> final(table).of(session_key@) is None,
        status.status@ == "scaned_but_redirect"@ ==> match old(table).of(session_key@) {
            None => final(table).of(session_key@) is None,
            Some(before) => final(table).of(session_key@) matches Some(after) && {
                &&& after.qrcode@ == before.qrcode@
                &&& after.qrcode_url@ == before.qrcode_url@
                &&& after.started_at_ms == before.started_at_ms
                &&& status.redirect_host matches Some(host) ==> (host@.len() > 0
                    ==> after.current_api_base_url@ == "https://"@ + host@)
                &&& (status.redirect_host is None || status.redirect_host->Some_0@.len() == 0)
                    ==> after.current_api_base_url@ == before.current_api_base_url@
            },
        },
        status.status@ != "expired"@ && status.status@ != "scaned_but_redirect"@ ==>
            final(table).of(session_key@) == old(table).of(session_key@),
        forall|k: Seq<char>|
            k != session_key@ ==> #[trigger] final(table).of(k) == old(table).of(k),
{
    lemma_statuses_differ();
}

/// A login is asked about for five minutes, at the address and by the code that it has; then it is
/// dropped, and the user is told to make a new code.
pub proof fn law_login_is_asked_about_while_it_lasts(
    table: &mut LoginTable,
    session_key: &str,
    now_ms: u64,
    r: LoginStep,
)
    requires
        call_ensures(login::check_login, (table, session_key, now_ms), r),
    ensures
        match old(table).of(session_key@) {
            None => r matches LoginStep::Ended(result) && !result.connected && result.account_id
                is None && result.message@ == "当前没有进行中的微信登录会话。"@,
            Some(before) => if now_ms < before.started_at_ms + 300_000 {
                &&& r matches LoginStep::Poll { api_base_url, qrcode } && api_base_url@
                    == before.current_api_base_url@ && qrcode@ == before.qrcode@
                &&& final(table).of(session_key@) == Some(before)
            } else {
                &&& r matches LoginStep::Ended(result) && !result.connected && result.account_id
                    is None && result.message@ == "二维码已过期，请重新生成。"@
                &&& final(table).of(session_key@) is None
            },
        },
        forall|k: Seq<char>|
            k != session_key@ ==> #[trigger] final(table).of(k) == old(table).of(k),
{
}

/// A code that can still be scanned is shown again, unless a new one is asked for; else a new one is
/// needed. The key is the account that is named, else a UUID.
pub proof fn law_code_is_shown_again(
    enabled: bool,
    table: &LoginTable,
    force: bool,
    account_id: &Option<String>,
    now_ms: u64,
    uuid: &[u8; 16],
    r: Result<LoginStart, String>,
    picture: Option<String>,
    url: &str,
)
    requires
        call_ensures(
            login::start_login_with,
            (enabled, table, force, account_id, now_ms, uuid),
            r,
        ),
        call_ensures(qr::build_qr_code_data_url, (url,), picture),
    ensures
        r is Ok <==> enabled,
        r matches Err(m) ==> m@ == "WEIXIN_ENABLED is false"@,
        enabled ==> ({
            let key = match *account_id {
                Some(id) => id@,
                None => encoding::uuid_text(uuid@),
            };
            if !force && table.of(key) is Some && now_ms < table.of(key)->Some_0.started_at_ms
                + 300_000 {
                r->Ok_0 matches LoginStart::Ready(result) && {
                    &&& result.session_key@ == key
                    &&& result.qr_code_url matches Some(u) && u@ == table.of(key)->Some_0.qrcode_url@
                    &&& url@ == table.of(key)->Some_0.qrcode_url@ ==> text::opt_view(
                        result.qr_code_data_url,
                    ) == text::opt_view(picture)
                    &&& result.message@ == "二维码已就绪，请使用微信扫描。"@
                }
            } else {
                r->Ok_0 matches LoginStart::NeedQrCode { session_key } && session_key@ == key
            }
        }),
{
}

/// A new code is kept under its key as the service gave it, from now on and at the configured
/// address, and shown to the user with its picture.
pub proof fn law_new_code_is_kept_and_shown(
    table: &mut LoginTable,
    session_key: &str,
    code: WeixinQrCodeResponse,
    base_url: &str,
    now_ms: u64,
    r: WeixinLoginStartResult,
    picture: Option<String>,
    url: &str,
)
    requires
        call_ensures(
            login::show_new_qr_code,
            (table, session_key, code, base_url, now_ms),
            r,
        ),
        call_ensures(qr::build_qr_code_data_url, (url,), picture),
        url@ == code.qrcode_img_content@,
    ensures
        final(table).of(session_key@) matches Some(kept) && {
            &&& kept.qrcode@ == code.qrcode@
            &&& kept.qrcode_url@ == code.qrcode_img_content@
            &&& kept.started_at_ms == now_ms
            &&& kept.current_api_base_url@ == base_url@
        },
        forall|k: Seq<char>|
            k != session_key@ ==> #[trigger] final(table).of(k) == old(table).of(k),
        r.session_key@ == session_key@,
        r.qr_code_url matches Some(u) && u@ == code.qrcode_img_content@,
        text::opt_view(r.qr_code_data_url) == text::opt_view(picture),
        r.message@ == "使用微信扫描二维码完成连接。"@,
{
}

/// A login is waited for as long as the caller asks, else as long as is configured, and never for
/// less than a second.
pub proof fn law_wait_is_as_long_as_asked(
    enabled: bool,
    timeout_ms: Option<u64>,
    login_timeout_ms: u64,
    now_ms: u64,
    r: Result<u64, String>,
)
    requires
        call_ensures(
            login::login_deadline,
            (enabled, timeout_ms, login_timeout_ms, now_ms),
            r,
        ),
    ensures
        r is Ok <==> enabled,
        r matches Err(m) ==> m@ == "WEIXIN_ENABLED is false"@,
        r matches Ok(deadline) ==> {
            let asked = match timeout_ms {
                Some(n) => n,
                None => login_timeout_ms,
            };
            &&& asked >= 1_000 ==> deadline == now_ms + asked
            &&& asked < 1_000 ==> deadline == now_ms + 1_000
        },
{
}

/// A completed login tells the account that was kept, and is no longer under way.
pub proof fn law_completed_login_names_its_account(
    table: &mut LoginTable,
    session_key: &str,
    account: &WeixinAccountRecord,
    r: WeixinLoginWaitResult,
)
    requires
        call_ensures(login::complete_login, (table, session_key, account), r),
    ensures
        r.connected,
        r.account_id matches Some(id) && id@ == account.account_id@,
        account.linked_user_id matches Some(user) ==> (r.linked_user_id matches Some(linked)
            && linked@ == user@),
        account.linked_user_id is None ==> r.linked_user_id is None,
        r.message@ == "与微信连接成功。"@,
        final(table).of(session_key@) is None,
        forall|k: Seq<char>|
            k != session_key@ ==> #[trigger] final(table).of(k) == old(table).of(k),
{
}

/// The table of logins gives back under a key what was last put there, and nothing else.
pub proof fn law_logins_are_read_back(
    table: &mut LoginTable,
    key: &str,
    login: WeixinActiveLogin,
)
    ensures
        call_ensures(LoginTable::insert, (table, key, login), ()) ==> final(table).of(key@) == Some(
            login,
        ) && forall|k: Seq<char>|
            k != key@ ==> #[trigger] final(table).of(k) == old(table).of(k),
        call_ensures(LoginTable::remove, (table, key), ()) ==> final(table).of(key@) is None
            && forall|k: Seq<char>|
            k != key@ ==> #[trigger] final(table).of(k) == old(table).of(k),
{
}

/// A new channel is that of its settings, with nothing remembered.
pub proof fn law_new_channel(config: WeixinChannelConfig, version: &str, r: WeixinManager)
    requires
        call_ensures(WeixinManager::new, (config, version), r),
    ensures
        r.api.config == config,
        r.api.channel_version@ == version@,
        r.api.client_version@ == version@,
        r.store.state_dir@ == config.state_dir@,
        forall|key: Seq<char>| #[trigger] r.logins.of(key) is None,
        forall|a: Seq<char>, u: Seq<char>| #[trigger] r.tokens.of(a, u) is None,
{
}

/// The channel is enabled exactly where its settings say so.
pub proof fn law_channel_is_enabled_by_its_settings(
    manager: &WeixinManager,
    enabled: bool,
    config: &WeixinChannelConfig,
)
    requires
        call_ensures(WeixinManager::is_enabled, (manager,), enabled),
        call_ensures(WeixinManager::config, (manager,), config),
    ensures
        enabled <==> manager.api.config.enabled,
        *config == manager.api.config,
{
}

/// A new code is kept by the manager at its own configured address.
pub proof fn law_manager_keeps_the_new_code(
    manager: &mut WeixinManager,
    session_key: &str,
    code: WeixinQrCodeResponse,
    now_ms: u64,
    r: WeixinLoginStartResult,
)
    requires
        call_ensures(WeixinManager::show_new_qr_code, (manager, session_key, code, now_ms), r),
    ensures
        final(manager).logins.of(session_key@) matches Some(kept) && {
            &&& kept.qrcode@ == code.qrcode@
            &&& kept.qrcode_url@ == code.qrcode_img_content@
            &&& kept.started_at_ms == now_ms
            &&& kept.current_api_base_url@ == old(manager).api.config.base_url@
        },
        forall|k: Seq<char>|
            k != session_key@ ==> #[trigger] final(manager).logins.of(k) == old(
                manager,
            ).logins.of(k),
        r.session_key@ == session_key@,
        r.qr_code_url matches Some(u) && u@ == code.qrcode_img_content@,
        r.message@ == "使用微信扫描二维码完成连接。"@,
        final(manager).api == old(manager).api,
        final(manager).store == old(manager).store,
        final(manager).tokens == old(manager).tokens,
{
}

/// A completed login tells its account, remembers the tokens that were kept of it, and is no longer
/// under way.
pub proof fn law_manager_completes_the_login(
    manager: &mut WeixinManager,
    session_key: &str,
    account: &WeixinAccountRecord,
    tokens: &Vec<NamedText>,
    r: WeixinLoginWaitResult,
)
    requires
        call_ensures(WeixinManager::complete_login, (manager, session_key, account, tokens), r),
    ensures
        r.connected,
        r.account_id matches Some(id) && id@ == account.account_id@,
        text::opt_view(r.linked_user_id) == text::opt_view(account.linked_user_id),
        r.message@ == "与微信连接成功。"@,
        final(manager).logins.of(session_key@) is None,
        forall|k: Seq<char>|
            k != session_key@ ==> #[trigger] final(manager).logins.of(k) == old(
                manager,
            ).logins.of(k),
        forall|u: Seq<char>| #[trigger]
            final(manager).tokens.of(account.account_id@, u) == store::text_under(tokens@, u),
        forall|a: Seq<char>, u: Seq<char>|
            a != account.account_id@ ==> #[trigger] final(manager).tokens.of(a, u) == old(
                manager,
            ).tokens.of(a, u),
        final(manager).api == old(manager).api,
        final(manager).store == old(manager).store,
{
}

/// A login that begins under a fresh key begins like any other.
pub proof fn law_login_begins_afresh(
    enabled: bool,
    table: &LoginTable,
    force: bool,
    account_id: &Option<String>,
    now_ms: u64,
    r: Result<LoginStart, String>,
)
    requires
        call_ensures(login::start_login, (enabled, table, force, account_id, now_ms), r),
    ensures
        r is Ok <==> enabled,
        enabled ==> (*account_id matches Some(id) ==> {
            let again = !force && table.of(id@) is Some && now_ms
                < table.of(id@)->Some_0.started_at_ms + 300_000;
            &&& again ==> (r->Ok_0 matches LoginStart::Ready(result) && result.session_key@ == id@
                && (result.qr_code_url matches Some(u) && u@ == table.of(id@)->Some_0.qrcode_url@))
            &&& !again ==> (r->Ok_0 matches LoginStart::NeedQrCode { session_key } && session_key@
                == id@)
        }),
{
}

/// The manager begins a login with its own settings and logins.
pub proof fn law_manager_begins_the_login(
    manager: &WeixinManager,
    force: bool,
    account_id: &Option<String>,
    now_ms: u64,
    r: Result<LoginStart, String>,
)
    requires
        call_ensures(WeixinManager::start_login, (manager, force, account_id, now_ms), r),
    ensures
        r is Ok <==> manager.api.config.enabled,
        r is Ok ==> (*account_id matches Some(id) ==> {
            let again = !force && manager.logins.of(id@) is Some && now_ms
                < manager.logins.of(id@)->Some_0.started_at_ms + 300_000;
            &&& again ==> (r->Ok_0 matches LoginStart::Ready(result) && result.session_key@ == id@
                && (result.qr_code_url matches Some(u) && u@
                == manager.logins.of(id@)->Some_0.qrcode_url@))
            &&& !again ==> (r->Ok_0 matches LoginStart::NeedQrCode { session_key } && session_key@
                == id@)
        }),
{
}

} // verus!
