//! Messages: the flags of the forward commands.
use vstd::prelude::*;

pub use crate::cli::config::resolve_bot;

verus! {

pub struct ForwardImageArgs {
    pub token: Option<String>,
    pub app_id: Option<String>,
    pub bot_app_id: Option<String>,
    pub bot_alias: Option<String>,
    pub to_wxid: String,
    pub xml: String,
    pub base_url: Option<String>,
}

pub struct ForwardVideoArgs {
    pub token: Option<String>,
    pub app_id: Option<String>,
    pub bot_app_id: Option<String>,
    pub bot_alias: Option<String>,
    pub to_wxid: String,
    pub xml: String,
    pub base_url: Option<String>,
}

pub struct ForwardFileArgs {
    pub token: Option<String>,
    pub app_id: Option<String>,
    pub bot_app_id: Option<String>,
    pub bot_alias: Option<String>,
    pub to_wxid: String,
    pub xml: String,
    pub base_url: Option<String>,
}

pub struct ForwardMiniAppArgs {
    pub token: Option<String>,
    pub app_id: Option<String>,
    pub bot_app_id: Option<String>,
    pub bot_alias: Option<String>,
    pub to_wxid: String,
    pub xml: String,
    pub cover_img_url: String,
    pub base_url: Option<String>,
}

pub struct ForwardUrlArgs {
    pub token: Option<String>,
    pub app_id: Option<String>,
    pub bot_app_id: Option<String>,
    pub bot_alias: Option<String>,
    pub to_wxid: String,
    pub xml: String,
    pub base_url: Option<String>,
}

} // verus!
