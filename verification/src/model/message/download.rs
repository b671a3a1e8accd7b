use vstd::prelude::*;

verus! {

#[derive(Debug, Clone)]
pub struct DownloadImageRequest<'a> {
    pub app_id: &'a str,
    pub xml: &'a str,
    pub image_type: i32,
}

#[derive(Debug, Clone, Default)]
pub struct DownloadImageResponse {
    pub file_url: String,
}

#[derive(Debug, Clone)]
pub struct DownloadVideoRequest<'a> {
    pub app_id: &'a str,
    pub xml: &'a str,
}

pub type DownloadVideoResponse = DownloadImageResponse;

#[derive(Debug, Clone)]
pub struct DownloadFileRequest<'a> {
    pub app_id: &'a str,
    pub xml: &'a str,
}

pub type DownloadFileResponse = DownloadImageResponse;

#[derive(Debug, Clone)]
pub struct DownloadVoiceRequest<'a> {
    pub app_id: &'a str,
    pub xml: &'a str,
    pub msg_id: i64,
}

pub type DownloadVoiceResponse = DownloadImageResponse;

#[derive(Debug, Clone)]
pub struct DownloadEmojiRequest<'a> {
    pub app_id: &'a str,
    pub emoji_md5: &'a str,
}

#[derive(Debug, Clone, Default)]
pub struct DownloadEmojiResponse {
    pub url: String,
}

#[derive(Debug, Clone)]
pub struct DownloadCdnRequest<'a> {
    pub app_id: &'a str,
    pub aes_key: &'a str,
    pub file_id: &'a str,
    pub type_: &'a str,
    pub total_size: &'a str,
    pub suffix: &'a str,
}

pub type DownloadCdnResponse = DownloadImageResponse;

} // verus!
