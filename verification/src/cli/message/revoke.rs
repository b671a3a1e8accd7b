//! Messages: the flags of the revoke commands.
use vstd::prelude::*;

pub use crate::cli::config::resolve_bot;

verus! {

pub struct RevokeMsgArgs {
    pub token: Option<String>,
    pub app_id: Option<String>,
    pub bot_app_id: Option<String>,
    pub bot_alias: Option<String>,
    pub to_wxid: String,
    pub msg_id: String,
    pub new_msg_id: String,
    pub create_time: String,
    pub base_url: Option<String>,
}

} // verus!
