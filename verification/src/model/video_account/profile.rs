use vstd::prelude::*;
use crate::model::video_account::common::FinderRawData;
use crate::model::video_account::common::FinderSearchInfo;

verus! {

#[derive(Debug, Clone)]
pub struct CreateFinderRequest<'a> {
    pub app_id: &'a str,
    pub nick_name: &'a str,
    pub head_img: &'a str,
    pub signature: Option<&'a str>,
    pub sex: Option<i32>,
}

#[derive(Debug, Clone, Default)]
pub struct CreateFinderResponse {
    pub username: String,
    pub nick_name: String,
    pub head_url: String,
    pub signature: String,
    pub follow_flag: i32,
}

#[derive(Debug, Clone)]
pub struct UpdateFinderProfileRequest<'a> {
    pub app_id: &'a str,
    pub nick_name: Option<&'a str>,
    pub head_img: Option<&'a str>,
    pub signature: Option<&'a str>,
    pub sex: Option<i32>,
    pub country: Option<&'a str>,
    pub province: Option<&'a str>,
    pub city: Option<&'a str>,
    pub my_user_name: &'a str,
    pub my_role_type: i32,
}

#[derive(Debug, Clone)]
pub struct GetFinderProfileRequest<'a> {
    pub app_id: &'a str,
}

#[derive(Debug, Clone, Default)]
pub struct FinderAliasInfo {
    pub nickname: String,
    pub head_img_url: String,
    pub role_type: i32,
}

#[derive(Debug, Clone, Default)]
pub struct FinderPrivacySetting {
    pub export_jump_link: String,
}

#[derive(Debug, Clone, Default)]
pub struct FinderProfileInfo {
    pub signature_max_length: i32,
    pub nickname_min_length: i32,
    pub nickname_max_length: i32,
    pub user_no_finder: i32,
    pub purchased_total_count: i32,
    pub privacy_setting: FinderPrivacySetting,
    pub alias_info: Vec<FinderAliasInfo>,
    pub current_alias_role_type: i32,
    pub next_alias_mod_available_time: i64,
    pub action_wording: serde_json::Value,
    pub user_flag: i32,
    pub main_finder_username: String,
}

#[derive(Debug, Clone)]
pub struct GetFinderQrCodeRequest<'a> {
    pub app_id: &'a str,
    pub my_user_name: &'a str,
    pub my_role_type: i32,
}

#[derive(Debug, Clone, Default)]
pub struct GetFinderQrCodeResponse {
    pub qrcode_url: String,
}

#[derive(Debug, Clone)]
pub struct UserPageRequest<'a> {
    pub app_id: &'a str,
    pub to_user_name: &'a str,
    pub last_buffer: Option<&'a str>,
    pub max_id: Option<i64>,
    pub search_info: Option<FinderSearchInfo<'a>>,
}

pub type UserPageResponse = FinderRawData;

} // verus!
