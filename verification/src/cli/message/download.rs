//! Messages: the flags of the download commands.
use vstd::prelude::*;

pub use crate::cli::config::resolve_bot;

verus! {

pub struct DownloadImageArgs {
    pub token: Option<String>,
    pub app_id: Option<String>,
    pub bot_app_id: Option<String>,
    pub bot_alias: Option<String>,
    pub xml: String,
    pub image_type: i32,
    pub base_url: Option<String>,
}

pub struct DownloadVideoArgs {
    pub token: Option<String>,
    pub app_id: Option<String>,
    pub bot_app_id: Option<String>,
    pub bot_alias: Option<String>,
    pub xml: String,
    pub base_url: Option<String>,
}

pub struct DownloadFileArgs {
    pub token: Option<String>,
    pub app_id: Option<String>,
    pub bot_app_id: Option<String>,
    pub bot_alias: Option<String>,
    pub xml: String,
    pub base_url: Option<String>,
}

pub struct DownloadVoiceArgs {
    pub token: Option<String>,
    pub app_id: Option<String>,
    pub bot_app_id: Option<String>,
    pub bot_alias: Option<String>,
    pub xml: String,
    pub msg_id: i64,
    pub base_url: Option<String>,
}

pub struct DownloadEmojiArgs {
    pub token: Option<String>,
    pub app_id: Option<String>,
    pub bot_app_id: Option<String>,
    pub bot_alias: Option<String>,
    pub emoji_md5: String,
    pub base_url: Option<String>,
}

pub struct DownloadCdnArgs {
    pub token: Option<String>,
    pub app_id: Option<String>,
    pub bot_app_id: Option<String>,
    pub bot_alias: Option<String>,
    pub aes_key: String,
    pub file_id: String,
    pub file_type: String,
    pub total_size: String,
    pub suffix: String,
    pub base_url: Option<String>,
}

} // verus!
