//! Logging in by QR code.

use vstd::prelude::*;
use vstd::string::*;

use crate::channel::weixin::qr;
use crate::channel::weixin::types::{
    WeixinAccountRecord, WeixinActiveLogin, WeixinLoginStartResult, WeixinLoginWaitResult,
    WeixinQrCodeResponse, WeixinQrStatusResponse,
};
use crate::encoding;
use crate::outside;
use crate::text;

verus! {

/// How long a QR code can be scanned, in milliseconds.
pub const LOGIN_TTL_MS: u64 = 300_000;

/// The shortest time to wait for a login, in milliseconds.
pub const MIN_LOGIN_WAIT_MS: u64 = 1_000;

/// One login under way.
#[derive(Debug)]
pub struct LoginEntry {
    pub session_key: String,
    pub login: WeixinActiveLogin,
}

/// The logins under way, no two under one key.
#[derive(Debug)]
pub struct LoginTable {
    pub entries: Vec<LoginEntry>,
}

/// Whether no two logins are under way under one key.
pub open spec fn keys_unique(entries: Seq<LoginEntry>) -> bool {
    forall|i: int, j: int|
        0 <= i < j < entries.len() ==> entries[i].session_key@ != entries[j].session_key@
}

/// The login that is under way under a key.
pub open spec fn login_of(entries: Seq<LoginEntry>, key: Seq<char>) -> Option<WeixinActiveLogin>
    decreases entries.len(),
{
    if entries.len() == 0 {
        None
    } else if entries.last().session_key@ == key {
        Some(entries.last().login)
    } else {
        login_of(entries.drop_last(), key)
    }
}

proof fn lemma_login_at(entries: Seq<LoginEntry>, k: int)
    requires
        0 <= k < entries.len(),
        keys_unique(entries),
    ensures
        login_of(entries, entries[k].session_key@) == Some(entries[k].login),
    decreases entries.len(),
{
    if k < entries.len() - 1 {
        lemma_login_at(entries.drop_last(), k);
    }
}

proof fn lemma_login_absent(entries: Seq<LoginEntry>, key: Seq<char>)
    requires
        forall|i: int| 0 <= i < entries.len() ==> (#[trigger] entries[i]).session_key@ != key,
    ensures
        login_of(entries, key) is None,
    decreases entries.len(),
{
    if entries.len() > 0 {
        lemma_login_absent(entries.drop_last(), key);
    }
}

proof fn lemma_login_update(entries: Seq<LoginEntry>, k: int, e: LoginEntry, key: Seq<char>)
    requires
        0 <= k < entries.len(),
        keys_unique(entries),
        e.session_key@ == entries[k].session_key@,
    ensures
        login_of(entries.update(k, e), key) == if key == e.session_key@ {
            Some(e.login)
        } else {
            login_of(entries, key)
        },
    decreases entries.len(),
{
    let us = entries.update(k, e);
    if k == entries.len() - 1 {
        assert(us.drop_last() =~= entries.drop_last());
    } else {
        assert(us.drop_last() =~= entries.drop_last().update(k, e));
        lemma_login_update(entries.drop_last(), k, e, key);
    }
}

proof fn lemma_login_remove(entries: Seq<LoginEntry>, k: int, key: Seq<char>)
    requires
        0 <= k < entries.len(),
        keys_unique(entries),
    ensures
        login_of(entries.remove(k), key) == if key == entries[k].session_key@ {
            None
        } else {
            login_of(entries, key)
        },
    decreases entries.len(),
{
    let us = entries.remove(k);
    if k == entries.len() - 1 {
        assert(us =~= entries.drop_last());
        if key == entries[k].session_key@ {
            lemma_login_absent(entries.drop_last(), key);
        }
    } else {
        assert(us.drop_last() =~= entries.drop_last().remove(k));
        assert(us.last() == entries.last());
        lemma_login_remove(entries.drop_last(), k, key);
    }
}

impl Clone for WeixinActiveLogin {
    fn clone(&self) -> (r: Self)
        ensures
            r == *self,
    {
        WeixinActiveLogin {
            qrcode: self.qrcode.clone(),
            qrcode_url: self.qrcode_url.clone(),
            started_at_ms: self.started_at_ms,
            current_api_base_url: self.current_api_base_url.clone(),
        }
    }
}

impl LoginTable {
    /// The table's invariant.
    pub open spec fn wf(&self) -> bool {
        keys_unique(self.entries@)
    }

    /// The login that is under way under a key.
    pub open spec fn of(&self, key: Seq<char>) -> Option<WeixinActiveLogin> {
        login_of(self.entries@, key)
    }

    fn find(&self, key: &str) -> (r: Option<usize>)
        requires
            self.wf(),
        ensures
            match r {
                Some(k) => {
                    &&& k < self.entries@.len()
                    &&& self.entries@[k as int].session_key@ == key@
                    &&& self.of(key@) == Some(self.entries@[k as int].login)
                },
                None => {
                    &&& self.of(key@) is None
                    &&& forall|i: int|
                        0 <= i < self.entries@.len() ==> (#[trigger] self.entries@[i]).session_key@
                            != key@
                },
            },
    {
        let mut k: usize = 0;
        while k < self.entries.len()
            invariant
                k <= self.entries@.len(),
                self.wf(),
                forall|i: int| 0 <= i < k ==> (#[trigger] self.entries@[i]).session_key@ != key@,
            decreases self.entries@.len() - k,
        {
            if text::str_eq(self.entries[k].session_key.as_str(), key) {
                proof {
                    lemma_login_at(self.entries@, k as int);
                }
                return Some(k);
            }
            k = k + 1;
        }
        proof {
            lemma_login_absent(self.entries@, key@);
        }
        None
    }

    /// The login that is under way under a key.
    pub fn get(&self, key: &str) -> (r: Option<WeixinActiveLogin>)
        requires
            self.wf(),
        ensures
            r == self.of(key@),
    {
        match self.find(key) {
            Some(k) => Some(self.entries[k].login.clone()),
            None => None,
        }
    }

    /// Puts a login under a key, in place of an earlier one.
    pub fn insert(&mut self, key: &str, login: WeixinActiveLogin)
        requires
            old(self).wf(),
        ensures
            final(self).wf(),
            forall|k: Seq<char>| #[trigger]
                final(self).of(k) == if k == key@ {
                    Some(login)
                } else {
                    old(self).of(k)
                },
    {
        let ghost before = self.entries@;
        let e = LoginEntry { session_key: key.to_owned(), login };
        match self.find(key) {
            Some(k) => {
                self.entries.set(k, e);
                assert forall|q: Seq<char>| #[trigger]
                    self.of(q) == if q == key@ {
                        Some(login)
                    } else {
                        login_of(before, q)
                    } by {
                    lemma_login_update(before, k as int, e, q);
                }
            },
            None => {
                self.entries.push(e);
                assert(self.entries@.drop_last() =~= before);
            },
        }
    }

    /// Drops the login under a key, where there is one.
    pub fn remove(&mut self, key: &str)
        requires
            old(self).wf(),
        ensures
            final(self).wf(),
            forall|k: Seq<char>| #[trigger]
                final(self).of(k) == if k == key@ {
                    None
                } else {
                    old(self).of(k)
                },
    {
        let ghost before = self.entries@;
        if let Some(k) = self.find(key) {
            self.entries.remove(k);
            proof {
                let us = self.entries@;
                assert(us =~= before.remove(k as int));
                assert forall|i: int, j: int| 0 <= i < j < us.len() implies us[i].session_key@
                    != us[j].session_key@ by {
                    let i0 = if i < k {
                        i
                    } else {
                        i + 1
                    };
                    let j0 = if j < k {
                        j
                    } else {
                        j + 1
                    };
                    assert(us[i] == before[i0] && us[j] == before[j0]);
                }
                assert forall|q: Seq<char>| #[trigger]
                    self.of(q) == if q == key@ {
                        None
                    } else {
                        login_of(before, q)
                    } by {
                    lemma_login_remove(before, k as int, q);
                }
            }
        }
    }
}

impl Default for LoginTable {
    /// No login is under way.
    fn default() -> (r: Self)
        ensures
            r.wf(),
            forall|key: Seq<char>| #[trigger] r.of(key) is None,
    {
        LoginTable { entries: Vec::new() }
    }
}

/// The time that has passed, or none where the clock went back.
pub open spec fn elapsed(now_ms: u64, since_ms: u64) -> int {
    if now_ms < since_ms {
        0
    } else {
        now_ms - since_ms
    }
}

/// Computes the time that has passed.
pub fn elapsed_ms(now_ms: u64, since_ms: u64) -> (r: u64)
    ensures
        r == elapsed(now_ms, since_ms),
{
    if now_ms < since_ms {
        0
    } else {
        now_ms - since_ms
    }
}

/// Whether the QR code of a login can still be scanned.
pub open spec fn is_fresh(login: WeixinActiveLogin, now_ms: u64) -> bool {
    elapsed(now_ms, login.started_at_ms) < LOGIN_TTL_MS
}

/// How a login begins.
#[derive(Debug)]
pub enum LoginStart {
    /// The QR code of a login under way is shown again.
    Ready(WeixinLoginStartResult),
    /// A new QR code is needed.
    NeedQrCode { session_key: String },
}

/// Whether a result shows a QR code under a key.
pub open spec fn shows(
    r: WeixinLoginStartResult,
    key: Seq<char>,
    url: Seq<char>,
    message: Seq<char>,
) -> bool {
    &&& r.session_key@ == key
    &&& text::opt_view(r.qr_code_url) == Some(url)
    &&& text::opt_view(r.qr_code_data_url) == qr::picture_of(url)
    &&& r.message@ == message
}

/// The key of a login: the account where one is named, else a UUID.
pub open spec fn login_key(account_id: Option<String>, uuid: Seq<u8>) -> Seq<char> {
    match account_id {
        Some(id) => id@,
        None => encoding::uuid_text(uuid),
    }
}

/// Whether a login begins in a way.
pub open spec fn starts(
    table: LoginTable,
    force: bool,
    key: Seq<char>,
    now_ms: u64,
    r: LoginStart,
) -> bool {
    match table.of(key) {
        Some(login) => if !force && is_fresh(login, now_ms) {
            r matches LoginStart::Ready(result) && shows(
                result,
                key,
                login.qrcode_url@,
                "二维码已就绪，请使用微信扫描。"@,
            )
        } else {
            r matches LoginStart::NeedQrCode { session_key } && session_key@ == key
        },
        None => r matches LoginStart::NeedQrCode { session_key } && session_key@ == key,
    }
}

/// Begins a login, under the key made from a UUID where no account is named. A QR code that can
/// still be scanned is shown again, unless a new one is asked for.
pub fn start_login_with(
    enabled: bool,
    table: &LoginTable,
    force: bool,
    account_id: &Option<String>,
    now_ms: u64,
    uuid: &[u8; 16],
) -> (r: Result<LoginStart, String>)
    requires
        table.wf(),
    ensures
        match r {
            Ok(start) => enabled && starts(
                *table,
                force,
                login_key(*account_id, uuid@),
                now_ms,
                start,
            ),
            Err(m) => !enabled && m@ == "WEIXIN_ENABLED is false"@,
        },
{
    if !enabled {
        return Err("WEIXIN_ENABLED is false".to_owned());
    }
    let session_key = match account_id {
        Some(id) => id.clone(),
        None => outside::uuid_to_text(uuid),
    };
    if !force {
        if let Some(login) = table.get(session_key.as_str()) {
            if elapsed_ms(now_ms, login.started_at_ms) < LOGIN_TTL_MS {
                let picture = qr::build_qr_code_data_url(login.qrcode_url.as_str());
                return Ok(
                    LoginStart::Ready(
                        WeixinLoginStartResult {
                            session_key,
                            qr_code_url: Some(login.qrcode_url),
                            qr_code_data_url: picture,
                            message: "二维码已就绪，请使用微信扫描。".to_owned(),
                        },
                    ),
                );
            }
        }
    }
    Ok(LoginStart::NeedQrCode { session_key })
}

/// Begins a login, under a fresh key where no account is named.
pub fn start_login(
    enabled: bool,
    table: &LoginTable,
    force: bool,
    account_id: &Option<String>,
    now_ms: u64,
) -> (r: Result<LoginStart, String>)
    requires
        table.wf(),
    ensures
        match r {
            Ok(start) => enabled && exists|uuid: Seq<u8>|
                encoding::is_uuid_v4(uuid) && starts(
                    *table,
                    force,
                    #[trigger] login_key(*account_id, uuid),
                    now_ms,
                    start,
                ),
            Err(m) => !enabled && m@ == "WEIXIN_ENABLED is false"@,
        },
{
    let uuid = outside::new_uuid();
    start_login_with(enabled, table, force, account_id, now_ms, &uuid)
}

/// Puts a new QR code under way and shows it.
pub fn show_new_qr_code(
    table: &mut LoginTable,
    session_key: &str,
    code: WeixinQrCodeResponse,
    base_url: &str,
    now_ms: u64,
) -> (r: WeixinLoginStartResult)
    requires
        old(table).wf(),
    ensures
        final(table).wf(),
        final(table).of(session_key@) matches Some(login) && {
            &&& login.qrcode@ == code.qrcode@
            &&& login.qrcode_url@ == code.qrcode_img_content@
            &&& login.started_at_ms == now_ms
            &&& login.current_api_base_url@ == base_url@
        },
        forall|k: Seq<char>|
            k != session_key@ ==> #[trigger] final(table).of(k) == old(table).of(k),
        shows(r, session_key@, code.qrcode_img_content@, "使用微信扫描二维码完成连接。"@),
{
    let picture = qr::build_qr_code_data_url(code.qrcode_img_content.as_str());
    let login = WeixinActiveLogin {
        qrcode: code.qrcode,
        qrcode_url: code.qrcode_img_content.clone(),
        started_at_ms: now_ms,
        current_api_base_url: base_url.to_owned(),
    };
    table.insert(session_key, login);
    WeixinLoginStartResult {
        session_key: session_key.to_owned(),
        qr_code_data_url: picture,
        qr_code_url: Some(code.qrcode_img_content),
        message: "使用微信扫描二维码完成连接。".to_owned(),
    }
}

/// How long a login is waited for: at least a second, and as long as asked or configured.
pub open spec fn wait_time(timeout_ms: Option<u64>, login_timeout_ms: u64) -> int {
    let t = match timeout_ms {
        Some(n) => n,
        None => login_timeout_ms,
    };
    if t < MIN_LOGIN_WAIT_MS {
        MIN_LOGIN_WAIT_MS as int
    } else {
        t as int
    }
}

/// Finds how long a login is waited for.
pub fn login_wait_ms(timeout_ms: Option<u64>, login_timeout_ms: u64) -> (r: u64)
    ensures
        r == wait_time(timeout_ms, login_timeout_ms),
{
    let t: u64 = match timeout_ms {
        Some(n) => n,
        None => login_timeout_ms,
    };
    if t < MIN_LOGIN_WAIT_MS {
        MIN_LOGIN_WAIT_MS
    } else {
        t
    }
}

/// Finds until when a login is waited for.
pub fn login_deadline(
    enabled: bool,
    timeout_ms: Option<u64>,
    login_timeout_ms: u64,
    now_ms: u64,
) -> (r: Result<u64, String>)
    requires
        enabled ==> now_ms + wait_time(timeout_ms, login_timeout_ms) <= u64::MAX,
    ensures
        match r {
            Ok(deadline) => enabled && deadline == now_ms + wait_time(
                timeout_ms,
                login_timeout_ms,
            ),
            Err(m) => !enabled && m@ == "WEIXIN_ENABLED is false"@,
        },
{
    if !enabled {
        return Err("WEIXIN_ENABLED is false".to_owned());
    }
    Ok(now_ms + login_wait_ms(timeout_ms, login_timeout_ms))
}

/// What is done while a login is waited for.
#[derive(Debug)]
pub enum LoginStep {
    /// Ask what has become of the QR code.
    Poll { api_base_url: String, qrcode: String },
    /// Wait a second and look again.
    Sleep,
    /// Keep the account, then complete the login.
    Confirmed(WeixinAccountRecord),
    /// Waiting is over.
    Ended(WeixinLoginWaitResult),
    /// Waiting failed.
    Failed(String),
}

/// Whether waiting is over without an account.
pub open spec fn ends_without(step: LoginStep, message: Seq<char>) -> bool {
    step matches LoginStep::Ended(r) && {
        &&& !r.connected
        &&& r.account_id is None
        &&& r.linked_user_id is None
        &&& r.message@ == message
    }
}

fn ended_without(message: &str) -> (r: LoginStep)
    ensures
        ends_without(r, message@),
{
    LoginStep::Ended(
        WeixinLoginWaitResult {
            connected: false,
            account_id: None,
            linked_user_id: None,
            message: message.to_owned(),
        },
    )
}

/// Looks at a login that is waited for: without one, or with one whose QR code is too old, waiting
/// is over.
pub fn check_login(table: &mut LoginTable, session_key: &str, now_ms: u64) -> (r: LoginStep)
    requires
        old(table).wf(),
    ensures
        final(table).wf(),
        match old(table).of(session_key@) {
            None => ends_without(r, "当前没有进行中的微信登录会话。"@) && *final(table) == *old(table),
            Some(login) => if is_fresh(login, now_ms) {
                &&& r matches LoginStep::Poll { api_base_url, qrcode } && api_base_url@
                    == login.current_api_base_url@ && qrcode@ == login.qrcode@
                &&& *final(table) == *old(table)
            } else {
                &&& ends_without(r, "二维码已过期，请重新生成。"@)
                &&& final(table).of(session_key@) is None
                &&& forall|k: Seq<char>|
                    k != session_key@ ==> #[trigger] final(table).of(k) == old(table).of(k)
            },
        },
{
    match table.get(session_key) {
        None => ended_without("当前没有进行中的微信登录会话。"),
        Some(login) => {
            if elapsed_ms(now_ms, login.started_at_ms) >= LOGIN_TTL_MS {
                table.remove(session_key);
                ended_without("二维码已过期，请重新生成。")
            } else {
                LoginStep::Poll {
                    api_base_url: login.current_api_base_url,
                    qrcode: login.qrcode,
                }
            }
        },
    }
}

/// Whether waiting goes on, or is over for its time is up.
pub open spec fn goes_on(step: LoginStep, now_ms: u64, deadline_ms: u64) -> bool {
    if now_ms >= deadline_ms {
        ends_without(step, "等待扫码确认超时，请继续使用当前二维码或重新生成。"@)
    } else {
        step is Sleep
    }
}

fn go_on(now_ms: u64, deadline_ms: u64) -> (r: LoginStep)
    ensures
        goes_on(r, now_ms, deadline_ms),
{
    if now_ms >= deadline_ms {
        ended_without("等待扫码确认超时，请继续使用当前二维码或重新生成。")
    } else {
        LoginStep::Sleep
    }
}

/// The host that a scanned QR code moves to, where one is named.
pub open spec fn redirect_of(status: WeixinQrStatusResponse) -> Option<Seq<char>> {
    match status.redirect_host {
        Some(host) => if host@.len() == 0 {
            None
        } else {
            Some(host@)
        },
        None => None,
    }
}

/// Whether an account is what a confirmed login gives.
pub open spec fn is_confirmed(
    status: WeixinQrStatusResponse,
    base_url: Seq<char>,
    now_ms: u64,
    account: WeixinAccountRecord,
) -> bool {
    &&& text::opt_view(status.ilink_bot_id) == Some(account.account_id@)
    &&& text::opt_view(status.bot_token) == Some(account.bot_token@)
    &&& account.base_url@ == match status.baseurl {
        Some(url) => url@,
        None => base_url,
    }
    &&& text::opt_view(account.linked_user_id) == text::opt_view(status.ilink_user_id)
    &&& account.saved_at_ms == now_ms
}

/// What has become of a QR code, and what is done about it.
pub open spec fn login_step(
    status: WeixinQrStatusResponse,
    base_url: Seq<char>,
    now_ms: u64,
    deadline_ms: u64,
    r: LoginStep,
) -> bool {
    let s = status.status@;
    if s == "wait"@ || s == "scaned"@ || s == "scaned_but_redirect"@ {
        goes_on(r, now_ms, deadline_ms)
    } else if s == "expired"@ {
        ends_without(r, "二维码已过期，请重新生成。"@)
    } else if s == "confirmed"@ {
        if status.ilink_bot_id is None {
            r matches LoginStep::Failed(m) && m@ == "login confirmed but ilink_bot_id is missing"@
        } else if status.bot_token is None {
            r matches LoginStep::Failed(m) && m@ == "login confirmed but bot_token is missing"@
        } else {
            r matches LoginStep::Confirmed(account) && is_confirmed(
                status,
                base_url,
                now_ms,
                account,
            )
        }
    } else {
        r matches LoginStep::Failed(m) && m@ == "unsupported qr login status: "@ + s
    }
}

/// The login under a key after the news about its QR code: it is dropped where the code has
/// expired, and asked for elsewhere where it has moved.
pub open spec fn login_after(
    before: Option<WeixinActiveLogin>,
    status: WeixinQrStatusResponse,
    after: Option<WeixinActiveLogin>,
) -> bool {
    let s = status.status@;
    if s == "expired"@ {
        after is None
    } else if s == "scaned_but_redirect"@ && before is Some && redirect_of(status) is Some {
        after matches Some(login) && {
            &&& login.qrcode == before->Some_0.qrcode
            &&& login.qrcode_url == before->Some_0.qrcode_url
            &&& login.started_at_ms == before->Some_0.started_at_ms
            &&& login.current_api_base_url@ == "https://"@ + redirect_of(status)->Some_0
        }
    } else {
        after == before
    }
}

/// Takes in what has become of a QR code.
pub fn wait_login(
    table: &mut LoginTable,
    session_key: &str,
    status: &WeixinQrStatusResponse,
    base_url: &str,
    now_ms: u64,
    deadline_ms: u64,
) -> (r: LoginStep)
    requires
        old(table).wf(),
    ensures
        final(table).wf(),
        login_step(*status, base_url@, now_ms, deadline_ms, r),
        login_after(old(table).of(session_key@), *status, final(table).of(session_key@)),
        forall|k: Seq<char>|
            k != session_key@ ==> #[trigger] final(table).of(k) == old(table).of(k),
{
    let s = status.status.as_str();
    proof {
        reveal_strlit("wait");
        reveal_strlit("scaned");
        reveal_strlit("scaned_but_redirect");
        reveal_strlit("expired");
        reveal_strlit("confirmed");
        assert("wait"@.len() != "expired"@.len() && "scaned"@.len() != "expired"@.len());
        assert("scaned_but_redirect"@.len() != "expired"@.len());
        assert("wait"@.len() != "scaned_but_redirect"@.len());
        assert("scaned"@.len() != "scaned_but_redirect"@.len());
        assert("confirmed"@.len() != "expired"@.len());
        assert("confirmed"@.len() != "scaned_but_redirect"@.len());
    }
    if text::str_eq(s, "wait") || text::str_eq(s, "scaned") {
        return go_on(now_ms, deadline_ms);
    }
    if text::str_eq(s, "scaned_but_redirect") {
        if let Some(host) = &status.redirect_host {
            if host.as_str().unicode_len() > 0 {
                if let Some(login) = table.get(session_key) {
                    let moved = WeixinActiveLogin {
                        qrcode: login.qrcode,
                        qrcode_url: login.qrcode_url,
                        started_at_ms: login.started_at_ms,
                        current_api_base_url: text::cat("https://", host.as_str()),
                    };
                    table.insert(session_key, moved);
                }
            }
        }
        return go_on(now_ms, deadline_ms);
    }
    if text::str_eq(s, "expired") {
        table.remove(session_key);
        return ended_without("二维码已过期，请重新生成。");
    }
    if text::str_eq(s, "confirmed") {
        let account_id = match &status.ilink_bot_id {
            Some(id) => id.clone(),
            None => return LoginStep::Failed(
                "login confirmed but ilink_bot_id is missing".to_owned(),
            ),
        };
        let bot_token = match &status.bot_token {
            Some(token) => token.clone(),
            None => return LoginStep::Failed(
                "login confirmed but bot_token is missing".to_owned(),
            ),
        };
        return LoginStep::Confirmed(
            WeixinAccountRecord {
                account_id,
                bot_token,
                base_url: match &status.baseurl {
                    Some(url) => url.clone(),
                    None => base_url.to_owned(),
                },
                linked_user_id: text::copy_opt(&status.ilink_user_id),
                saved_at_ms: now_ms,
            },
        );
    }
    LoginStep::Failed(text::cat("unsupported qr login status: ", s))
}

/// Completes a login once its account was kept.
pub fn complete_login(
    table: &mut LoginTable,
    session_key: &str,
    account: &WeixinAccountRecord,
) -> (r: WeixinLoginWaitResult)
    requires
        old(table).wf(),
    ensures
        final(table).wf(),
        final(table).of(session_key@) is None,
        forall|k: Seq<char>|
            k != session_key@ ==> #[trigger] final(table).of(k) == old(table).of(k),
        r.connected,
        text::opt_view(r.account_id) == Some(account.account_id@),
        text::opt_view(r.linked_user_id) == text::opt_view(account.linked_user_id),
        r.message@ == "与微信连接成功。"@,
{
    table.remove(session_key);
    WeixinLoginWaitResult {
        connected: true,
        account_id: Some(account.account_id.clone()),
        linked_user_id: text::copy_opt(&account.linked_user_id),
        message: "与微信连接成功。".to_owned(),
    }
}

/// A login leads to an account only where the service confirmed it and named both the bot and its
/// token.
pub proof fn law_account_needs_confirmation(
    status: WeixinQrStatusResponse,
    base_url: Seq<char>,
    now_ms: u64,
    deadline_ms: u64,
    r: LoginStep,
)
    requires
        login_step(status, base_url, now_ms, deadline_ms, r),
    ensures
        r is Confirmed <==> status.status@ == "confirmed"@ && status.ilink_bot_id is Some
            && status.bot_token is Some,
{
    reveal_strlit("wait");
    reveal_strlit("scaned");
    reveal_strlit("scaned_but_redirect");
    reveal_strlit("expired");
    reveal_strlit("confirmed");
    assert("wait"@.len() == 4 && "scaned"@.len() == 6 && "scaned_but_redirect"@.len() == 19
        && "expired"@.len() == 7 && "confirmed"@.len() == 9);
}

/// Once the time is up, no news about a QR code makes the wait go on.
pub proof fn law_waiting_ends(
    status: WeixinQrStatusResponse,
    base_url: Seq<char>,
    now_ms: u64,
    deadline_ms: u64,
    r: LoginStep,
)
    requires
        login_step(status, base_url, now_ms, deadline_ms, r),
        now_ms >= deadline_ms,
    ensures
        !(r is Sleep),
        !(r is Poll),
{
}

} // verus!
