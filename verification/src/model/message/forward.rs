use vstd::prelude::*;
use crate::model::message::send::SendTextResponse;

verus! {

#[derive(Debug, Clone)]
pub struct ForwardImageRequest<'a> {
    pub app_id: &'a str,
    pub to_wxid: &'a str,
    pub xml: &'a str,
}

#[derive(Debug, Clone, Default)]
pub struct ForwardImageResponse {
    pub to_wxid: String,
    pub create_time: Option<i64>,
    pub msg_id: i64,
    pub new_msg_id: i64,
    pub msg_type: Option<i32>,
    pub aes_key: String,
    pub file_id: String,
    pub length: Option<i64>,
    pub width: Option<i64>,
    pub height: Option<i64>,
    pub md5: Option<String>,
}

#[derive(Debug, Clone)]
pub struct ForwardVideoRequest<'a> {
    pub app_id: &'a str,
    pub to_wxid: &'a str,
    pub xml: &'a str,
}

#[derive(Debug, Clone, Default)]
pub struct ForwardVideoResponse {
    pub to_wxid: String,
    pub create_time: Option<i64>,
    pub msg_id: i64,
    pub new_msg_id: i64,
    pub msg_type: Option<i32>,
    pub aes_key: String,
    pub file_id: Option<String>,
    pub length: Option<i64>,
}

#[derive(Debug, Clone)]
pub struct ForwardFileRequest<'a> {
    pub app_id: &'a str,
    pub to_wxid: &'a str,
    pub xml: &'a str,
}

pub type ForwardFileResponse = SendTextResponse;

#[derive(Debug, Clone)]
pub struct ForwardMiniAppRequest<'a> {
    pub app_id: &'a str,
    pub to_wxid: &'a str,
    pub xml: &'a str,
    pub cover_img_url: &'a str,
}

pub type ForwardMiniAppResponse = SendTextResponse;

#[derive(Debug, Clone)]
pub struct ForwardUrlRequest<'a> {
    pub app_id: &'a str,
    pub to_wxid: &'a str,
    pub xml: &'a str,
}

pub type ForwardUrlResponse = SendTextResponse;

} // verus!
