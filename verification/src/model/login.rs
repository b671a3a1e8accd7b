use vstd::prelude::*;

verus! {

#[derive(Debug, Clone)]
pub struct GetLoginQrCodeRequest<'a> {
    /// 设备ID，首次登录可空字符串
    pub app_id: &'a str,
    /// 设备类型：ipad（推荐），mac
    pub type_: &'a str,
    /// 地区ID
    pub region_id: &'a str,
    /// 可选代理
    pub proxy_ip: Option<&'a str>,
    pub ttuid: Option<&'a str>,
    pub aid: Option<&'a str>,
}

#[derive(Debug, Clone, Default)]
pub struct GetLoginQrCodeResponse {
    pub qr_data: String,
    pub qr_img_base64: String,
    pub uuid: String,
    pub app_id: String,
}

#[derive(Debug, Clone)]
pub struct CheckLoginRequest<'a> {
    pub app_id: &'a str,
    pub uuid: &'a str,
    pub proxy_ip: Option<&'a str>,
    pub captch_code: Option<&'a str>,
    pub auto_sliding: Option<bool>,
}

#[derive(Debug, Clone, Default)]
pub struct CheckLoginResponse {
    pub uuid: String,
    pub head_img_url: Option<String>,
    pub nick_name: Option<String>,
    pub expired_time: Option<i64>,
    pub status: i32,
    pub login_info: Option<LoginInfo>,
}

#[derive(Debug, Clone, Default)]
pub struct LoginInfo {
    pub uin: Option<i64>,
    pub wxid: Option<String>,
    pub nick_name: Option<String>,
    pub mobile: Option<String>,
    pub alias: Option<String>,
}

#[derive(Debug, Clone)]
pub struct DialogLoginRequest<'a> {
    pub app_id: &'a str,
    pub region_id: &'a str,
    pub proxy_ip: Option<&'a str>,
    pub aid: Option<&'a str>,
}

#[derive(Debug, Clone, Default)]
pub struct DialogLoginResponse {
    pub app_id: String,
    pub uuid: String,
}

#[derive(Debug, Clone)]
pub struct LoginByAccountRequest<'a> {
    pub app_id: &'a str,
    pub proxy_ip: &'a str,
    pub region_id: &'a str,
    pub account: &'a str,
    pub password: &'a str,
    pub step: i32,
}

#[derive(Debug, Clone, Default)]
pub struct LoginByAccountResponse {
    pub app_id: Option<String>,
    pub base64_img: Option<String>,
    pub uuid: Option<String>,
    pub head_img_url: Option<String>,
    pub nick_name: Option<String>,
    pub expired_time: Option<i64>,
    pub status: Option<i32>,
    pub login_info: Option<LoginInfo>,
}

#[derive(Debug, Clone)]
pub struct SetCallbackRequest<'a> {
    pub token: &'a str,
    pub callback_url: &'a str,
}

#[derive(Debug, Clone)]
pub struct ChangeMacToIpadRequest<'a> {
    pub app_id: &'a str,
}

#[derive(Debug, Clone)]
pub struct CheckOnlineRequest<'a> {
    pub app_id: &'a str,
}

pub type CheckOnlineResponse = bool;

#[derive(Debug, Clone)]
pub struct ReconnectionRequest<'a> {
    pub app_id: &'a str,
}

#[derive(Debug, Clone, Default)]
pub struct ReconnectionResponse {
    pub uuid: String,
    pub head_img_url: Option<String>,
    pub nick_name: Option<String>,
    pub expired_time: Option<i64>,
    pub status: i32,
    pub login_info: Option<LoginInfo>,
}

#[derive(Debug, Clone)]
pub struct LogoutRequest<'a> {
    pub app_id: &'a str,
}

} // verus!
