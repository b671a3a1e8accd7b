//! Groups: the flags of the group commands.
use vstd::prelude::*;

pub use crate::cli::config::resolve_bot;

verus! {

pub struct CreateChatroomArgs {
    pub token: Option<String>,
    pub app_id: Option<String>,
    pub bot_app_id: Option<String>,
    pub bot_alias: Option<String>,
    pub wxids: Vec<String>,
    pub base_url: Option<String>,
}

pub struct DisbandChatroomArgs {
    pub token: Option<String>,
    pub app_id: Option<String>,
    pub bot_app_id: Option<String>,
    pub bot_alias: Option<String>,
    pub chatroom_id: String,
    pub base_url: Option<String>,
}

pub struct QuitChatroomArgs {
    pub token: Option<String>,
    pub app_id: Option<String>,
    pub bot_app_id: Option<String>,
    pub bot_alias: Option<String>,
    pub chatroom_id: String,
    pub base_url: Option<String>,
}

pub struct ModifyChatroomNameArgs {
    pub token: Option<String>,
    pub app_id: Option<String>,
    pub bot_app_id: Option<String>,
    pub bot_alias: Option<String>,
    pub chatroom_name: String,
    pub chatroom_id: String,
    pub base_url: Option<String>,
}

pub struct ModifyChatroomRemarkArgs {
    pub token: Option<String>,
    pub app_id: Option<String>,
    pub bot_app_id: Option<String>,
    pub bot_alias: Option<String>,
    pub chatroom_remark: String,
    pub chatroom_id: String,
    pub base_url: Option<String>,
}

pub struct ModifyChatroomNickNameForSelfArgs {
    pub token: Option<String>,
    pub app_id: Option<String>,
    pub bot_app_id: Option<String>,
    pub bot_alias: Option<String>,
    pub nick_name: String,
    pub chatroom_id: String,
    pub base_url: Option<String>,
}

pub struct InviteMemberArgs {
    pub token: Option<String>,
    pub app_id: Option<String>,
    pub bot_app_id: Option<String>,
    pub bot_alias: Option<String>,
    pub chatroom_id: String,
    pub wxids: Vec<String>,
    pub reason: String,
    pub base_url: Option<String>,
}

pub struct RemoveMemberArgs {
    pub token: Option<String>,
    pub app_id: Option<String>,
    pub bot_app_id: Option<String>,
    pub bot_alias: Option<String>,
    pub chatroom_id: String,
    pub wxids: Vec<String>,
    pub base_url: Option<String>,
}

pub struct JoinRoomUsingQrCodeArgs {
    pub token: Option<String>,
    pub app_id: Option<String>,
    pub bot_app_id: Option<String>,
    pub bot_alias: Option<String>,
    pub qr_uuid: String,
    pub chatroom_name: String,
    pub base_url: Option<String>,
}

pub struct AgreeJoinRoomArgs {
    pub token: Option<String>,
    pub app_id: Option<String>,
    pub bot_app_id: Option<String>,
    pub bot_alias: Option<String>,
    pub msg_id: String,
    pub new_msg_id: String,
    pub create_time: String,
    pub from_username: String,
    pub to_username: String,
    pub base_url: Option<String>,
}

pub struct RoomAccessApplyCheckApproveArgs {
    pub token: Option<String>,
    pub app_id: Option<String>,
    pub bot_app_id: Option<String>,
    pub bot_alias: Option<String>,
    pub chatroom_id: String,
    pub wxid: String,
    pub ticket: String,
    pub base_url: Option<String>,
}

pub struct InviteAddEnterRoomArgs {
    pub token: Option<String>,
    pub app_id: Option<String>,
    pub bot_app_id: Option<String>,
    pub bot_alias: Option<String>,
    pub chatroom_id: String,
    pub exp_id: String,
    pub wxids: Vec<String>,
    pub base_url: Option<String>,
}

pub struct AddGroupMemberAsFriendArgs {
    pub token: Option<String>,
    pub app_id: Option<String>,
    pub bot_app_id: Option<String>,
    pub bot_alias: Option<String>,
    pub chatroom_id: String,
    pub wxid: String,
    pub content: String,
    pub base_url: Option<String>,
}

pub struct GetChatroomMemberListArgs {
    pub token: Option<String>,
    pub app_id: Option<String>,
    pub bot_app_id: Option<String>,
    pub bot_alias: Option<String>,
    pub chatroom_id: String,
    pub base_url: Option<String>,
}

pub struct GetChatroomMemberDetailArgs {
    pub token: Option<String>,
    pub app_id: Option<String>,
    pub bot_app_id: Option<String>,
    pub bot_alias: Option<String>,
    pub chatroom_id: String,
    pub wxid: String,
    pub base_url: Option<String>,
}

pub struct GetChatroomInfoArgs {
    pub token: Option<String>,
    pub app_id: Option<String>,
    pub bot_app_id: Option<String>,
    pub bot_alias: Option<String>,
    pub chatroom_id: String,
    pub base_url: Option<String>,
}

pub struct GetChatroomAnnouncementArgs {
    pub token: Option<String>,
    pub app_id: Option<String>,
    pub bot_app_id: Option<String>,
    pub bot_alias: Option<String>,
    pub chatroom_id: String,
    pub type_: i64,
    pub base_url: Option<String>,
}

pub struct SetChatroomAnnouncementArgs {
    pub token: Option<String>,
    pub app_id: Option<String>,
    pub bot_app_id: Option<String>,
    pub bot_alias: Option<String>,
    pub chatroom_id: String,
    pub content: String,
    pub base_url: Option<String>,
}

pub struct GetChatroomQrCodeArgs {
    pub token: Option<String>,
    pub app_id: Option<String>,
    pub bot_app_id: Option<String>,
    pub bot_alias: Option<String>,
    pub chatroom_id: String,
    pub base_url: Option<String>,
}

pub struct SaveContractListArgs {
    pub token: Option<String>,
    pub app_id: Option<String>,
    pub bot_app_id: Option<String>,
    pub bot_alias: Option<String>,
    pub chatroom_id: String,
    pub save: bool,
    pub base_url: Option<String>,
}

pub struct PinChatArgs {
    pub token: Option<String>,
    pub app_id: Option<String>,
    pub bot_app_id: Option<String>,
    pub bot_alias: Option<String>,
    pub chatroom_id: String,
    pub add: bool,
    pub base_url: Option<String>,
}

pub struct SetMsgSilenceArgs {
    pub token: Option<String>,
    pub app_id: Option<String>,
    pub bot_app_id: Option<String>,
    pub bot_alias: Option<String>,
    pub chatroom_id: String,
    pub switch_: bool,
    pub base_url: Option<String>,
}

pub struct AdminOperateArgs {
    pub token: Option<String>,
    pub app_id: Option<String>,
    pub bot_app_id: Option<String>,
    pub bot_alias: Option<String>,
    pub chatroom_id: String,
    pub wxid: String,
    pub is_admin: bool,
    pub base_url: Option<String>,
}

} // verus!
