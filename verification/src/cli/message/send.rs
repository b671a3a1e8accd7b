//! Messages: the flags of the send commands.
use vstd::prelude::*;

pub use crate::cli::config::resolve_bot;

verus! {

pub struct SendTextArgs {
    pub token: Option<String>,
    pub app_id: Option<String>,
    pub bot_app_id: Option<String>,
    pub bot_alias: Option<String>,
    pub to_wxid: String,
    pub content: String,
    pub ats: Option<String>,
    pub base_url: Option<String>,
}

pub struct SendImageArgs {
    pub token: Option<String>,
    pub app_id: Option<String>,
    pub bot_app_id: Option<String>,
    pub bot_alias: Option<String>,
    pub to_wxid: String,
    pub img_url: String,
    pub base_url: Option<String>,
}

pub struct SendVoiceArgs {
    pub token: Option<String>,
    pub app_id: Option<String>,
    pub bot_app_id: Option<String>,
    pub bot_alias: Option<String>,
    pub to_wxid: String,
    pub voice_url: String,
    pub voice_duration: i64,
    pub base_url: Option<String>,
}

pub struct SendVideoArgs {
    pub token: Option<String>,
    pub app_id: Option<String>,
    pub bot_app_id: Option<String>,
    pub bot_alias: Option<String>,
    pub to_wxid: String,
    pub video_url: String,
    pub thumb_url: String,
    pub video_duration: i64,
    pub base_url: Option<String>,
}

pub struct SendFileArgs {
    pub token: Option<String>,
    pub app_id: Option<String>,
    pub bot_app_id: Option<String>,
    pub bot_alias: Option<String>,
    pub to_wxid: String,
    pub file_url: String,
    pub file_name: String,
    pub base_url: Option<String>,
}

pub struct SendLinkArgs {
    pub token: Option<String>,
    pub app_id: Option<String>,
    pub bot_app_id: Option<String>,
    pub bot_alias: Option<String>,
    pub to_wxid: String,
    pub title: String,
    pub desc: String,
    pub link_url: String,
    pub thumb_url: String,
    pub base_url: Option<String>,
}

pub struct SendEmojiArgs {
    pub token: Option<String>,
    pub app_id: Option<String>,
    pub bot_app_id: Option<String>,
    pub bot_alias: Option<String>,
    pub to_wxid: String,
    pub emoji_md5: String,
    pub emoji_size: i64,
    pub base_url: Option<String>,
}

pub struct SendAppmsgArgs {
    pub token: Option<String>,
    pub app_id: Option<String>,
    pub bot_app_id: Option<String>,
    pub bot_alias: Option<String>,
    pub to_wxid: String,
    pub appmsg: String,
    pub base_url: Option<String>,
}

pub struct SendMiniAppArgs {
    pub token: Option<String>,
    pub app_id: Option<String>,
    pub bot_app_id: Option<String>,
    pub bot_alias: Option<String>,
    pub to_wxid: String,
    pub mini_app_id: String,
    pub display_name: String,
    pub page_path: String,
    pub cover_img_url: String,
    pub title: String,
    pub user_name: String,
    pub base_url: Option<String>,
}

pub struct SendNameCardArgs {
    pub token: Option<String>,
    pub app_id: Option<String>,
    pub bot_app_id: Option<String>,
    pub bot_alias: Option<String>,
    pub to_wxid: String,
    pub nick_name: String,
    pub name_card_wxid: String,
    pub base_url: Option<String>,
}

} // verus!
