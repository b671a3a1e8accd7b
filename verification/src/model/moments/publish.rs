use vstd::prelude::*;

verus! {

#[derive(Debug, Clone, Default)]
pub struct SnsAudience<'a> {
    pub allow_wxids: Option<Vec<&'a str>>,
    pub at_wxids: Option<Vec<&'a str>>,
    pub disable_wxids: Option<Vec<&'a str>>,
    pub allow_tag_ids: Option<Vec<&'a str>>,
    pub disable_tag_ids: Option<Vec<&'a str>>,
    pub privacy: Option<bool>,
}

#[derive(Debug, Clone)]
pub struct SendTextSnsRequest<'a> {
    pub app_id: &'a str,
    pub audience: SnsAudience<'a>,
    pub content: &'a str,
}

#[derive(Debug, Clone)]
pub struct SnsImageInfo {
    pub file_url: String,
    pub thumb_url: String,
    pub file_md5: String,
    pub length: Option<i64>,
    pub width: i64,
    pub height: i64,
}

#[derive(Debug, Clone)]
pub struct SendImgSnsRequest<'a> {
    pub app_id: &'a str,
    pub audience: SnsAudience<'a>,
    pub img_infos: Vec<SnsImageInfo>,
    pub content: Option<&'a str>,
}

#[derive(Debug, Clone)]
pub struct SnsVideoInfo {
    pub file_url: String,
    pub thumb_url: String,
    pub file_md5: String,
    pub length: Option<i64>,
}

#[derive(Debug, Clone)]
pub struct SendVideoSnsRequest<'a> {
    pub app_id: &'a str,
    pub audience: SnsAudience<'a>,
    pub content: Option<&'a str>,
    pub video_info: SnsVideoInfo,
}

#[derive(Debug, Clone)]
pub struct SendUrlSnsRequest<'a> {
    pub app_id: &'a str,
    pub audience: SnsAudience<'a>,
    pub content: Option<&'a str>,
    pub thumb_url: &'a str,
    pub link_url: &'a str,
    pub title: &'a str,
    pub description: &'a str,
}

#[derive(Debug, Clone)]
pub struct ForwardSnsRequest<'a> {
    pub app_id: &'a str,
    pub audience: SnsAudience<'a>,
    pub sns_xml: &'a str,
}

#[derive(Debug, Clone, Default)]
pub struct SendSnsResponse {
    pub id: i64,
    pub user_name: String,
    pub nick_name: String,
    pub create_time: i64,
}

} // verus!
