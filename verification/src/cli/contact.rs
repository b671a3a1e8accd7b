//! Contacts: the flags of the contact commands.
use vstd::prelude::*;

pub use crate::cli::config::resolve_bot;

verus! {

pub struct FetchContactsListArgs {
    pub token: Option<String>,
    pub app_id: Option<String>,
    pub bot_app_id: Option<String>,
    pub bot_alias: Option<String>,
    pub base_url: Option<String>,
}

pub struct FetchContactsListCacheArgs {
    pub token: Option<String>,
    pub app_id: Option<String>,
    pub bot_app_id: Option<String>,
    pub bot_alias: Option<String>,
    pub base_url: Option<String>,
}

pub struct SearchContactsArgs {
    pub token: Option<String>,
    pub app_id: Option<String>,
    pub bot_app_id: Option<String>,
    pub bot_alias: Option<String>,
    pub contacts_info: String,
    pub base_url: Option<String>,
}

pub struct AddContactsArgs {
    pub token: Option<String>,
    pub app_id: Option<String>,
    pub bot_app_id: Option<String>,
    pub bot_alias: Option<String>,
    pub scene: i32,
    pub option: i32,
    pub v3: String,
    pub v4: String,
    pub content: String,
    pub base_url: Option<String>,
}

pub struct SetFriendRemarkArgs {
    pub token: Option<String>,
    pub app_id: Option<String>,
    pub bot_app_id: Option<String>,
    pub bot_alias: Option<String>,
    pub wxid: String,
    pub remark: String,
    pub base_url: Option<String>,
}

pub struct SetFriendPermissionsArgs {
    pub token: Option<String>,
    pub app_id: Option<String>,
    pub bot_app_id: Option<String>,
    pub bot_alias: Option<String>,
    pub wxid: String,
    pub only_chat: bool,
    pub base_url: Option<String>,
}

pub struct DeleteFriendArgs {
    pub token: Option<String>,
    pub app_id: Option<String>,
    pub bot_app_id: Option<String>,
    pub bot_alias: Option<String>,
    pub wxid: String,
    pub base_url: Option<String>,
}

pub struct CheckContactRelationArgs {
    pub token: Option<String>,
    pub app_id: Option<String>,
    pub bot_app_id: Option<String>,
    pub bot_alias: Option<String>,
    pub wxids: Vec<String>,
    pub base_url: Option<String>,
}

pub struct GetContactBriefInfoArgs {
    pub token: Option<String>,
    pub app_id: Option<String>,
    pub bot_app_id: Option<String>,
    pub bot_alias: Option<String>,
    pub wxids: Vec<String>,
    pub base_url: Option<String>,
}

pub struct GetContactDetailInfoArgs {
    pub token: Option<String>,
    pub app_id: Option<String>,
    pub bot_app_id: Option<String>,
    pub bot_alias: Option<String>,
    pub wxids: Vec<String>,
    pub base_url: Option<String>,
}

pub struct GetPhoneAddressListArgs {
    pub token: Option<String>,
    pub app_id: Option<String>,
    pub bot_app_id: Option<String>,
    pub bot_alias: Option<String>,
    pub phones: Vec<String>,
    pub base_url: Option<String>,
}

pub struct UploadPhoneAddressListArgs {
    pub token: Option<String>,
    pub app_id: Option<String>,
    pub bot_app_id: Option<String>,
    pub bot_alias: Option<String>,
    pub phones: Vec<String>,
    pub op_type: i32,
    pub base_url: Option<String>,
}

pub struct SearchWecomContactArgs {
    pub token: Option<String>,
    pub app_id: Option<String>,
    pub bot_app_id: Option<String>,
    pub bot_alias: Option<String>,
    pub scene: i32,
    pub content: String,
    pub base_url: Option<String>,
}

pub struct SyncWecomContactsArgs {
    pub token: Option<String>,
    pub app_id: Option<String>,
    pub bot_app_id: Option<String>,
    pub bot_alias: Option<String>,
    pub base_url: Option<String>,
}

pub struct AddWecomContactArgs {
    pub token: Option<String>,
    pub app_id: Option<String>,
    pub bot_app_id: Option<String>,
    pub bot_alias: Option<String>,
    pub v3: String,
    pub v4: String,
    pub base_url: Option<String>,
}

pub struct GetWecomContactDetailArgs {
    pub token: Option<String>,
    pub app_id: Option<String>,
    pub bot_app_id: Option<String>,
    pub bot_alias: Option<String>,
    pub to_user_name: String,
    pub base_url: Option<String>,
}

} // verus!
