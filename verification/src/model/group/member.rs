use vstd::prelude::*;

verus! {

#[derive(Debug, Clone)]
pub struct InviteMemberRequest<'a> {
    pub app_id: &'a str,
    pub chatroom_id: &'a str,
    pub reason: &'a str,
    pub wxids: Vec<&'a str>,
}

#[derive(Debug, Clone)]
pub struct RemoveMemberRequest<'a> {
    pub app_id: &'a str,
    pub chatroom_id: &'a str,
    pub wxids: Vec<&'a str>,
}

#[derive(Debug, Clone)]
pub struct JoinRoomUsingQrCodeRequest<'a> {
    pub app_id: &'a str,
    pub qr_uuid: &'a str,
    pub chatroom_name: &'a str,
}

#[derive(Debug, Clone)]
pub struct AgreeJoinRoomRequest<'a> {
    pub app_id: &'a str,
    pub msg_id: &'a str,
    pub new_msg_id: &'a str,
    pub create_time: &'a str,
    pub from_username: &'a str,
    pub to_username: &'a str,
}

#[derive(Debug, Clone)]
pub struct RoomAccessApplyCheckApproveRequest<'a> {
    pub app_id: &'a str,
    pub chatroom_id: &'a str,
    pub wxid: &'a str,
    pub ticket: &'a str,
}

#[derive(Debug, Clone)]
pub struct InviteAddEnterRoomRequest<'a> {
    pub app_id: &'a str,
    pub chatroom_id: &'a str,
    pub exp_id: &'a str,
    pub wxids: Vec<&'a str>,
}

#[derive(Debug, Clone)]
pub struct AddGroupMemberAsFriendRequest<'a> {
    pub app_id: &'a str,
    pub chatroom_id: &'a str,
    pub wxid: &'a str,
    pub content: &'a str,
}

#[derive(Debug, Clone)]
pub struct GetChatroomMemberListRequest<'a> {
    pub app_id: &'a str,
    pub chatroom_id: &'a str,
}

#[derive(Debug, Clone, Default)]
pub struct GetChatroomMemberListResponse {
    pub chat_room_owner: String,
    pub chatroom_members: Vec<ChatroomMember>,
}

#[derive(Debug, Clone, Default)]
pub struct ChatroomMember {
    pub wxid: String,
    pub inviter_user_name: String,
    pub big_head_img_url: String,
    pub small_head_img_url: String,
    pub invite_ticket: String,
    pub member_flag: i64,
    pub nick_name: String,
    pub remark_name: String,
    pub sex: i64,
    pub user_name: String,
    pub display_name: String,
}

#[derive(Debug, Clone)]
pub struct GetChatroomMemberDetailRequest<'a> {
    pub app_id: &'a str,
    pub chatroom_id: &'a str,
    pub wxid: &'a str,
}

#[derive(Debug, Clone, Default)]
pub struct GetChatroomMemberDetailResponse {
    pub wxid: String,
    pub nick_name: String,
    pub remark_name: String,
    pub sex: i64,
    pub country: String,
    pub province: String,
    pub city: String,
    pub signature: String,
    pub big_head_img_url: String,
    pub small_head_img_url: String,
    pub user_name: String,
    pub display_name: String,
}

#[derive(Debug, Clone)]
pub struct GetChatroomInfoRequest<'a> {
    pub app_id: &'a str,
    pub chatroom_id: &'a str,
}

#[derive(Debug, Clone, Default)]
pub struct GetChatroomInfoResponse {
    pub chatroom_id: String,
    pub nick_name: String,
    pub py_initial: String,
    pub quan_pin: String,
    pub sex: i64,
    pub remark: Option<String>,
    pub remark_py_initial: Option<String>,
    pub remark_quan_pin: Option<String>,
    pub chat_room_notify: i64,
    pub chat_room_owner: String,
    pub small_head_img_url: String,
    pub member_list: Vec<GetChatroomInfoMember>,
}

#[derive(Debug, Clone, Default)]
pub struct GetChatroomInfoMember {
    pub wxid: String,
    pub nick_name: String,
    pub inviter_user_name: Option<String>,
    pub member_flag: i64,
    pub display_name: Option<String>,
    pub big_head_img_url: Option<String>,
    pub small_head_img_url: Option<String>,
}

pub type SimpleGroupResponse = ();

} // verus!
