use vstd::prelude::*;
use crate::model::video_account::common::{
    FinderContactProfile, FinderExtInfo, FinderLiveInfo, FinderSearchInfo,
};

verus! {

#[derive(Debug, Clone)]
pub struct FollowFinderRequest<'a> {
    pub app_id: &'a str,
    pub my_user_name: &'a str,
    pub my_role_type: i32,
    pub to_user_name: &'a str,
    pub op_type: i32,
    pub search_info: Option<FinderSearchInfo<'a>>,
}

#[derive(Debug, Clone, Default)]
pub struct FollowFinderResponse {
    pub username: String,
    pub nickname: String,
    pub head_url: String,
    pub signature: String,
    pub follow_flag: i32,
    pub auth_info: serde_json::Value,
    pub cover_img_url: String,
    pub spam_status: i32,
    pub ext_flag: i32,
    pub ext_info: Option<FinderExtInfo>,
    pub live_status: i32,
    pub live_cover_img_url: String,
    pub live_info: Option<FinderLiveInfo>,
    pub status: i32,
}

#[derive(Debug, Clone)]
pub struct FollowListRequest<'a> {
    pub app_id: &'a str,
    pub my_user_name: &'a str,
    pub my_role_type: i32,
    pub last_buffer: Option<&'a str>,
}

#[derive(Debug, Clone, Default)]
pub struct FollowListData {
    pub contact_list: Vec<FinderContactProfile>,
    pub last_buffer: String,
    pub continue_flag: i32,
    pub follow_count: i32,
}

#[derive(Debug, Clone)]
pub struct SearchFollowRequest<'a> {
    pub app_id: &'a str,
    pub my_user_name: &'a str,
    pub my_role_type: i32,
    pub to_user_name: &'a str,
    pub keyword: &'a str,
}

} // verus!
