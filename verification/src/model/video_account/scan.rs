use vstd::prelude::*;

verus! {

#[derive(Debug, Clone)]
pub struct ScanFollowRequest<'a> {
    pub app_id: &'a str,
    pub proxy_ip: &'a str,
    pub my_user_name: &'a str,
    pub my_role_type: i32,
    pub qr_content: &'a str,
    pub object_id: &'a str,
    pub object_nonce_id: &'a str,
}

#[derive(Debug, Clone)]
pub struct ScanBrowseRequest<'a> {
    pub app_id: &'a str,
    pub my_user_name: &'a str,
    pub my_role_type: i32,
    pub qr_content: &'a str,
    pub object_id: i64,
}

#[derive(Debug, Clone)]
pub struct ScanFavRequest<'a> {
    pub app_id: &'a str,
    pub my_user_name: &'a str,
    pub my_role_type: i32,
    pub qr_content: &'a str,
    pub object_id: i64,
}

pub type ScanLikeRequest<'a> = ScanFavRequest<'a>;

#[derive(Debug, Clone)]
pub struct ScanCommentRequest<'a> {
    pub app_id: &'a str,
    pub my_user_name: &'a str,
    pub my_role_type: i32,
    pub qr_content: &'a str,
    pub object_id: i64,
    pub comment_content: &'a str,
    pub reply_username: Option<&'a str>,
    pub ref_comment_id: Option<i64>,
    pub root_comment_id: Option<i64>,
}

#[derive(Debug, Clone)]
pub struct ScanQrCodeRequest<'a> {
    pub app_id: &'a str,
    pub my_user_name: &'a str,
    pub my_role_type: i32,
    pub qr_content: &'a str,
}

#[derive(Debug, Clone)]
pub struct ScanLoginChannelsRequest<'a> {
    pub app_id: &'a str,
    pub qr_content: &'a str,
}

#[derive(Debug, Clone, Default)]
pub struct ScanLoginFinderInfo {
    pub finder_username: Option<String>,
    pub nickname: Option<String>,
    pub head_img_url: Option<String>,
    pub cover_img_url: Option<String>,
    pub spam_flag: Option<i32>,
    pub acct_type: Option<i32>,
    pub auth_icon_type: Option<i32>,
    pub owner_wx_uin: Option<i64>,
    pub admin_nickname: Option<String>,
    pub category_flag: Option<String>,
    pub uniq_id: Option<String>,
    pub is_master_finder: Option<bool>,
}

#[derive(Debug, Clone, Default)]
pub struct ScanLoginChannelsResponse {
    pub session_id: String,
    pub finder_list: Vec<ScanLoginFinderInfo>,
    pub acct_status: i32,
}

} // verus!
