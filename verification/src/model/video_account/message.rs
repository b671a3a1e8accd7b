use vstd::prelude::*;
use crate::model::video_account::common::FinderRawData;

verus! {

#[derive(Debug, Clone)]
pub struct SendFinderMsgRequest<'a> {
    pub app_id: &'a str,
    pub to_wxid: &'a str,
    pub id: i64,
    pub username: &'a str,
    pub nickname: &'a str,
    pub head_url: &'a str,
    pub nonce_id: &'a str,
    pub media_type: &'a str,
    pub width: &'a str,
    pub height: &'a str,
    pub url: &'a str,
    pub thumb_url: &'a str,
    pub thumb_url_token: &'a str,
    pub description: &'a str,
    pub video_play_len: &'a str,
}

#[derive(Debug, Clone)]
pub struct PostPrivateLetterRequest<'a> {
    pub app_id: &'a str,
    pub content: &'a str,
    pub to_user_name: &'a str,
    pub my_user_name: &'a str,
    pub msg_session_id: &'a str,
}

#[derive(Debug, Clone)]
pub struct PostPrivateLetterImgRequest<'a> {
    pub app_id: &'a str,
    pub to_user_name: &'a str,
    pub my_user_name: &'a str,
    pub msg_session_id: &'a str,
    pub img_url: &'a str,
}

#[derive(Debug, Clone, Default)]
pub struct PrivateLetterResponse {
    pub new_msg_id: i64,
}

#[derive(Debug, Clone)]
pub struct SyncPrivateLetterMsgRequest<'a> {
    pub app_id: &'a str,
    pub key_buff: Option<&'a str>,
}

pub type SyncPrivateLetterMsgResponse = FinderRawData;

#[derive(Debug, Clone)]
pub struct MentionListRequest<'a> {
    pub app_id: &'a str,
    pub my_user_name: &'a str,
    pub my_role_type: i32,
    pub req_scene: i32,
    pub last_buff: &'a str,
}

pub type MentionListResponse = FinderRawData;

#[derive(Debug, Clone)]
pub struct ContactListRequest<'a> {
    pub app_id: &'a str,
    pub my_user_name: &'a str,
    pub my_role_type: i32,
    pub query_info: &'a str,
}

#[derive(Debug, Clone, Default)]
pub struct ContactExtInfo {
    pub country: String,
    pub province: String,
    pub city: String,
    pub sex: i32,
}

#[derive(Debug, Clone, Default)]
pub struct ContactMsgInfo {
    pub msg_username: String,
    pub session_id: String,
}

#[derive(Debug, Clone, Default)]
pub struct ContactListEntry {
    pub username: Option<String>,
    pub nickname: Option<String>,
    pub head_url: Option<String>,
    pub signature: Option<String>,
    pub ext_info: Option<ContactExtInfo>,
    pub msg_info: Option<ContactMsgInfo>,
    pub wx_username_v5: Option<String>,
}

} // verus!
