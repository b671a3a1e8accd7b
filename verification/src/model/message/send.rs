use vstd::prelude::*;

verus! {

#[derive(Debug, Clone)]
pub struct SendTextRequest<'a> {
    pub app_id: &'a str,
    pub to_wxid: &'a str,
    pub content: &'a str,
    pub ats: Option<&'a str>,
}

#[derive(Debug, Clone, Default)]
pub struct SendTextResponse {
    pub to_wxid: String,
    pub create_time: i64,
    pub msg_id: i64,
    pub new_msg_id: i64,
    pub msg_type: i32,
}

#[derive(Debug, Clone)]
pub struct PostImageRequest<'a> {
    pub app_id: &'a str,
    pub to_wxid: &'a str,
    pub img_url: &'a str,
}

#[derive(Debug, Clone, Default)]
pub struct PostImageResponse {
    pub to_wxid: String,
    pub create_time: i64,
    pub msg_id: i64,
    pub new_msg_id: i64,
    pub type_: Option<i32>,
    pub aes_key: String,
    pub file_id: String,
    pub length: i64,
    pub width: i64,
    pub height: i64,
    pub md5: String,
}

#[derive(Debug, Clone)]
pub struct PostVoiceRequest<'a> {
    pub app_id: &'a str,
    pub to_wxid: &'a str,
    pub voice_url: &'a str,
    pub voice_duration: i64,
}

#[derive(Debug, Clone, Default)]
pub struct PostVoiceResponse {
    pub to_wxid: String,
    pub create_time: i64,
    pub msg_id: i64,
    pub new_msg_id: i64,
    pub msg_type: Option<i32>,
}

#[derive(Debug, Clone)]
pub struct PostVideoRequest<'a> {
    pub app_id: &'a str,
    pub to_wxid: &'a str,
    pub video_url: &'a str,
    pub thumb_url: &'a str,
    pub video_duration: i64,
}

#[derive(Debug, Clone, Default)]
pub struct PostVideoResponse {
    pub to_wxid: String,
    pub create_time: Option<i64>,
    pub msg_id: i64,
    pub new_msg_id: i64,
    pub msg_type: Option<i32>,
    pub aes_key: String,
    pub file_id: String,
    pub length: i64,
}

#[derive(Debug, Clone)]
pub struct PostFileRequest<'a> {
    pub app_id: &'a str,
    pub to_wxid: &'a str,
    pub file_url: &'a str,
    pub file_name: &'a str,
}

pub type PostFileResponse = SendTextResponse;

#[derive(Debug, Clone)]
pub struct PostLinkRequest<'a> {
    pub app_id: &'a str,
    pub to_wxid: &'a str,
    pub title: &'a str,
    pub desc: &'a str,
    pub link_url: &'a str,
    pub thumb_url: &'a str,
}

pub type PostLinkResponse = SendTextResponse;

#[derive(Debug, Clone)]
pub struct PostEmojiRequest<'a> {
    pub app_id: &'a str,
    pub to_wxid: &'a str,
    pub emoji_md5: &'a str,
    pub emoji_size: i64,
}

#[derive(Debug, Clone, Default)]
pub struct PostEmojiResponse {
    pub to_wxid: String,
    pub create_time: i64,
    pub msg_id: i64,
    pub new_msg_id: i64,
    pub msg_type: Option<i32>,
}

#[derive(Debug, Clone)]
pub struct PostAppMsgRequest<'a> {
    pub app_id: &'a str,
    pub to_wxid: &'a str,
    pub appmsg: &'a str,
}

pub type PostAppMsgResponse = SendTextResponse;

#[derive(Debug, Clone)]
pub struct PostMiniAppRequest<'a> {
    pub app_id: &'a str,
    pub to_wxid: &'a str,
    pub mini_app_id: &'a str,
    pub display_name: &'a str,
    pub page_path: &'a str,
    pub cover_img_url: &'a str,
    pub title: &'a str,
    pub user_name: &'a str,
}

pub type PostMiniAppResponse = SendTextResponse;

#[derive(Debug, Clone)]
pub struct PostNameCardRequest<'a> {
    pub app_id: &'a str,
    pub to_wxid: &'a str,
    pub nick_name: &'a str,
    pub name_card_wxid: &'a str,
}

pub type PostNameCardResponse = SendTextResponse;

} // verus!
