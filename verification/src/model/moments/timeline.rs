use vstd::prelude::*;

verus! {

#[derive(Debug, Clone)]
pub struct GetSelfSnsListRequest<'a> {
    pub app_id: &'a str,
    pub max_id: Option<i64>,
    pub decrypt: Option<bool>,
    pub first_page_md5: Option<&'a str>,
}

#[derive(Debug, Clone)]
pub struct GetContactsSnsListRequest<'a> {
    pub app_id: &'a str,
    pub wxid: &'a str,
    pub max_id: Option<i64>,
    pub decrypt: Option<bool>,
    pub first_page_md5: Option<&'a str>,
}

#[derive(Debug, Clone)]
pub struct GetSnsDetailsRequest<'a> {
    pub app_id: &'a str,
    pub sns_id: i64,
}

#[derive(Debug, Clone, Default)]
pub struct SnsLikeEntry {
    pub user_name: String,
    pub nick_name: String,
    pub source: i32,
    pub entry_type: i32,
    pub create_time: i64,
}

#[derive(Debug, Clone, Default)]
pub struct SnsCommentEntry {
    pub user_name: String,
    pub nick_name: String,
    pub source: i32,
    pub entry_type: i32,
    pub content: Option<String>,
    pub create_time: i64,
    pub comment_id: Option<i64>,
    pub reply_comment_id: Option<i64>,
    pub is_not_rich_text: Option<i32>,
}

#[derive(Debug, Clone, Default)]
pub struct SnsTimelineItem {
    pub id: i64,
    pub user_name: String,
    pub nick_name: String,
    pub create_time: i64,
    pub sns_xml: String,
    pub like_count: i32,
    pub like_list: Option<Vec<SnsLikeEntry>>,
    pub comment_count: i32,
    pub comment_list: Option<Vec<SnsCommentEntry>>,
    pub with_user_count: i32,
    pub with_user_list: Option<Vec<String>>,
}

#[derive(Debug, Clone, Default)]
pub struct SnsListResponse {
    pub first_page_md5: String,
    pub max_id: i64,
    pub sns_count: i32,
    pub request_time: i64,
    pub sns_list: Vec<SnsTimelineItem>,
}

pub type GetSelfSnsListResponse = SnsListResponse;

pub type GetContactsSnsListResponse = SnsListResponse;

pub type GetSnsDetailsResponse = SnsTimelineItem;

} // verus!
