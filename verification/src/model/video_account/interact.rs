use vstd::prelude::*;
use crate::model::video_account::common::FinderRawData;

verus! {

#[derive(Debug, Clone)]
pub struct FinderOptRequest<'a> {
    pub app_id: &'a str,
    pub my_user_name: &'a str,
    pub my_role_type: i32,
    pub to_user_name: &'a str,
    pub op_type: i32,
    pub id: &'a str,
    pub remain: i32,
}

#[derive(Debug, Clone)]
pub struct BrowseFinderRequest<'a> {
    pub app_id: &'a str,
    pub object_id: i64,
    pub session_buffer: Option<&'a str>,
    pub object_nonce_id: &'a str,
    pub my_user_name: &'a str,
    pub my_role_type: i32,
}

#[derive(Debug, Clone)]
pub struct IdFavRequest<'a> {
    pub app_id: &'a str,
    pub my_user_name: &'a str,
    pub op_type: i32,
    pub object_nonce_id: &'a str,
    pub session_buffer: &'a str,
    pub object_id: i64,
    pub to_user_name: &'a str,
    pub my_role_type: i32,
}

#[derive(Debug, Clone)]
pub struct IdLikeRequest<'a> {
    pub app_id: &'a str,
    pub object_id: i64,
    pub session_buffer: Option<&'a str>,
    pub object_nonce_id: &'a str,
    pub op_type: i32,
    pub my_user_name: &'a str,
    pub my_role_type: i32,
    pub to_user_name: &'a str,
}

#[derive(Debug, Clone)]
pub struct LikeFavListRequest<'a> {
    pub app_id: &'a str,
    pub my_user_name: &'a str,
    pub my_role_type: i32,
    pub last_buffer: Option<&'a str>,
    pub flag: i32,
}

pub type LikeFavListResponse = FinderRawData;

#[derive(Debug, Clone)]
pub struct CommentFinderRequest<'a> {
    pub app_id: &'a str,
    pub proxy_ip: &'a str,
    pub my_user_name: &'a str,
    pub op_type: i32,
    pub object_nonce_id: &'a str,
    pub session_buffer: &'a str,
    pub object_id: i64,
    pub my_role_type: i32,
    pub content: &'a str,
    pub comment_id: &'a str,
    pub reply_user_name: &'a str,
    pub ref_comment_id: i64,
    pub root_comment_id: i64,
}

#[derive(Debug, Clone, Default)]
pub struct CommentFinderResponse {
    pub comment_id: Option<String>,
}

#[derive(Debug, Clone)]
pub struct CommentListRequest<'a> {
    pub app_id: &'a str,
    pub object_id: i64,
    pub last_buffer: Option<&'a str>,
    pub session_buffer: &'a str,
    pub object_nonce_id: Option<&'a str>,
    pub ref_comment_id: Option<i64>,
    pub root_comment_id: Option<i64>,
}

pub type CommentListResponse = FinderRawData;

} // verus!
