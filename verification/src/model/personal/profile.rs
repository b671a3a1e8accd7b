use vstd::prelude::*;

verus! {

#[derive(Debug, Clone)]
pub struct GetProfileRequest<'a> {
    pub app_id: &'a str,
}

#[derive(Debug, Clone, Default)]
pub struct GetProfileResponse {
    pub alias: String,
    pub wxid: String,
    pub nick_name: String,
    pub mobile: String,
    pub uin: i64,
    pub sex: i32,
    pub province: String,
    pub city: String,
    pub signature: String,
    pub country: String,
    pub big_head_img_url: String,
    pub small_head_img_url: String,
    pub reg_country: String,
    pub sns_bg_img: String,
}

#[derive(Debug, Clone)]
pub struct UpdateProfileRequest<'a> {
    pub app_id: &'a str,
    pub nick_name: Option<&'a str>,
    pub country: Option<&'a str>,
    pub province: Option<&'a str>,
    pub city: Option<&'a str>,
    pub sex: Option<i32>,
    pub signature: Option<&'a str>,
}

pub type UpdateProfileResponse = ();

#[derive(Debug, Clone)]
pub struct UpdateHeadImgRequest<'a> {
    pub app_id: &'a str,
    pub head_img_url: &'a str,
}

pub type UpdateHeadImgResponse = ();

#[derive(Debug, Clone)]
pub struct GetQrCodeRequest<'a> {
    pub app_id: &'a str,
}

#[derive(Debug, Clone, Default)]
pub struct GetQrCodeResponse {
    pub qr_code: String,
}

} // verus!
