use vstd::prelude::*;

verus! {

#[derive(Debug, Clone)]
pub struct UploadSnsImageRequest<'a> {
    pub app_id: &'a str,
    pub img_urls: Vec<&'a str>,
}

#[derive(Debug, Clone, Default)]
pub struct UploadedSnsImage {
    pub file_url: String,
    pub thumb_url: String,
    pub file_md5: String,
    pub length: i64,
    pub width: i64,
    pub height: i64,
}

pub type UploadSnsImageResponse = Vec<UploadedSnsImage>;

#[derive(Debug, Clone)]
pub struct UploadSnsVideoRequest<'a> {
    pub app_id: &'a str,
    pub thumb_url: &'a str,
    pub video_url: &'a str,
}

#[derive(Debug, Clone, Default)]
pub struct UploadSnsVideoResponse {
    pub file_url: String,
    pub thumb_url: String,
    pub file_md5: String,
    pub length: i64,
}

#[derive(Debug, Clone)]
pub struct DownloadSnsVideoRequest<'a> {
    pub app_id: &'a str,
    pub sns_xml: &'a str,
}

#[derive(Debug, Clone, Default)]
pub struct DownloadSnsVideoResponse {
    pub file_url: String,
}

} // verus!
