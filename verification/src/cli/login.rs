//! Login: the flags of the login commands, and what a login records.
use vstd::prelude::*;
use crate::cli::config::{opt_view, or_view, upsert_bot, upserted, CliConfig};
use crate::text::owned;

verus! {

pub struct GetLoginQrArgs {
    pub token: Option<String>,
    pub app_id: Option<String>,
    pub device_type: Option<String>,
    pub region_id: Option<String>,
    pub base_url: Option<String>,
}

pub struct CheckLoginArgs {
    pub token: Option<String>,
    pub app_id: Option<String>,
    pub uuid: String,
    pub base_url: Option<String>,
    pub auto_sliding: bool,
}

pub struct DialogLoginArgs {
    pub token: Option<String>,
    pub app_id: Option<String>,
    pub region_id: Option<String>,
    pub proxy_ip: Option<String>,
    pub aid: Option<String>,
    pub base_url: Option<String>,
}

pub struct LoginByAccountArgs {
    pub token: Option<String>,
    pub app_id: Option<String>,
    pub proxy_ip: String,
    pub region_id: String,
    pub account: String,
    pub password: String,
    pub step: i32,
    pub base_url: Option<String>,
}

pub struct SetCallbackArgs {
    pub token: Option<String>,
    pub callback_url: String,
    /// 不设置时默认与 --token 一致
    pub callback_token: Option<String>,
    pub base_url: Option<String>,
}

pub struct ChangeMacToIpadArgs {
    pub token: Option<String>,
    pub app_id: Option<String>,
    pub base_url: Option<String>,
}

pub struct CheckOnlineArgs {
    pub token: Option<String>,
    pub app_id: Option<String>,
    pub base_url: Option<String>,
}

pub struct ReconnectionArgs {
    pub token: Option<String>,
    pub app_id: Option<String>,
    pub base_url: Option<String>,
}

pub struct LogoutArgs {
    pub token: Option<String>,
    pub app_id: Option<String>,
    pub base_url: Option<String>,
}

/// The device type used when none is given or configured.
pub open spec fn default_device_type() -> Seq<char> {
    seq!['i', 'p', 'a', 'd']
}

/// The region used when none is given or configured.
pub open spec fn default_region_id() -> Seq<char> {
    seq!['3', '2', '0', '0', '0', '0']
}

/// The flag, else the configured value, else the default.
pub open spec fn with_default(flag: Option<Seq<char>>, configured: Option<Seq<char>>, default: Seq<
    char,
>) -> Seq<char> {
    match or_view(flag, configured) {
        Some(v) => v,
        None => default,
    }
}

/// The device type of a login: the flag, else the configured one, else `ipad`.
pub fn resolve_device_type(flag: Option<String>, config: &CliConfig) -> (r: String)
    ensures
        r@ == with_default(opt_view(flag), config@.device_type, default_device_type()),
{
    match flag {
        Some(v) => v,
        None => match &config.device_type {
            Some(v) => v.clone(),
            None => {
                let d = owned("ipad");
                proof {
                    reveal_strlit("ipad");
                }
                assert(d@ =~= default_device_type());
                d
            },
        },
    }
}

/// The region of a login: the flag, else the configured one, else `320000`.
pub fn resolve_region_id(flag: Option<String>, config: &CliConfig) -> (r: String)
    ensures
        r@ == with_default(opt_view(flag), config@.region_id, default_region_id()),
{
    match flag {
        Some(v) => v,
        None => match &config.region_id {
            Some(v) => v.clone(),
            None => {
                let d = owned("320000");
                proof {
                    reveal_strlit("320000");
                }
                assert(d@ =~= default_region_id());
                d
            },
        },
    }
}

/// The app id of a login that may start a new device: the flag, else the
/// configured one, else empty.
pub fn login_app_id(flag: Option<String>, config: &CliConfig) -> (r: String)
    ensures
        r@ == with_default(opt_view(flag), config@.app_id, Seq::<char>::empty()),
{
    match flag {
        Some(v) => v,
        None => match &config.app_id {
            Some(v) => v.clone(),
            None => String::new(),
        },
    }
}

/// The token sent with a callback URL: `--callback-token`, else the API token.
pub fn callback_body_token(callback_token: Option<String>, token: String) -> (r: String)
    ensures
        r@ == match opt_view(callback_token) {
            Some(c) => c,
            None => token@,
        },
{
    match callback_token {
        Some(c) => c,
        None => token,
    }
}

/// After a login QR code is issued for `app_id`: that app id becomes the
/// configured one, and the bot is recorded (with no wxid yet).
pub fn record_login_qr(config: &mut CliConfig, app_id: &str)
    ensures
        final(config)@.app_id == Some(app_id@),
        final(config)@.bots == upserted(old(config)@.bots, app_id@, None),
        final(config)@.token == old(config)@.token,
        final(config)@.base_url == old(config)@.base_url,
        final(config)@.region_id == old(config)@.region_id,
        final(config)@.device_type == old(config)@.device_type,
{
    config.app_id = Some(owned(app_id));
    upsert_bot(config, app_id, None);
}

/// The login status that means logged in.
pub open spec fn logged_in(status: i32) -> bool {
    status == 2
}

/// After a login check: when logged in, `app_id` becomes the configured app id
/// and the bot is recorded with its wxid; otherwise nothing changes. Tells
/// whether the configuration changed (and is to be saved).
pub fn record_login_status(config: &mut CliConfig, app_id: &str, status: i32, wxid: Option<String>) -> (r:
    bool)
    ensures
        r == logged_in(status),
        r ==> final(config)@.app_id == Some(app_id@) && final(config)@.bots == upserted(
            old(config)@.bots,
            app_id@,
            opt_view(wxid),
        ) && final(config)@.token == old(config)@.token && final(config)@.base_url == old(
            config,
        )@.base_url && final(config)@.region_id == old(config)@.region_id
            && final(config)@.device_type == old(config)@.device_type,
        !r ==> final(config)@ == old(config)@,
{
    if status == 2 {
        config.app_id = Some(owned(app_id));
        upsert_bot(config, app_id, wxid);
        true
    } else {
        false
    }
}

} // verus!
