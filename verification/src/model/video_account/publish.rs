use vstd::prelude::*;

verus! {

#[derive(Debug, Clone)]
pub struct UploadFinderVideoRequest<'a> {
    pub app_id: &'a str,
    pub video_url: &'a str,
    pub cover_img_url: &'a str,
}

#[derive(Debug, Clone, Default)]
pub struct UploadFinderVideoResponse {
    pub file_url: String,
    pub thumb_url: String,
    pub mp4_identify: String,
    pub file_size: i64,
    pub thumb_md5: String,
    pub file_key: String,
}

#[derive(Debug, Clone, Default)]
pub struct FinderVideoCdn {
    pub file_url: String,
    pub thumb_url: String,
    pub mp4_identify: String,
    pub file_size: i64,
    pub thumb_md5: String,
    pub file_key: String,
}

#[derive(Debug, Clone)]
pub struct PublishFinderCdnRequest<'a> {
    pub app_id: &'a str,
    pub topic: Vec<&'a str>,
    pub my_user_name: &'a str,
    pub my_role_type: i32,
    pub description: &'a str,
    pub video_cdn: FinderVideoCdn,
}

#[derive(Debug, Clone, Default)]
pub struct PublishFinderCdnResponse {
    pub code: String,
    pub msg: Option<String>,
}

#[derive(Debug, Clone)]
pub struct PublishFinderWebRequest<'a> {
    pub app_id: &'a str,
    pub title: &'a str,
    pub video_url: &'a str,
    pub thumb_url: &'a str,
    pub description: &'a str,
}

#[derive(Debug, Clone, Default)]
pub struct PublishFinderWebResponse {
    pub id: i64,
}

#[derive(Debug, Clone)]
pub struct SendFinderSnsRequest<'a> {
    pub app_id: &'a str,
    pub allow_wx_ids: Vec<&'a str>,
    pub at_wx_ids: Vec<&'a str>,
    pub disable_wx_ids: Vec<&'a str>,
    pub id: i64,
    pub username: &'a str,
    pub nickname: &'a str,
    pub head_url: &'a str,
    pub nonce_id: &'a str,
    pub media_type: &'a str,
    pub width: &'a str,
    pub height: &'a str,
    pub url: &'a str,
    pub thumb_url: &'a str,
    pub thumb_url_token: &'a str,
    pub description: &'a str,
    pub video_play_len: &'a str,
}

} // verus!
