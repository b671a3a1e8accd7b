use vstd::prelude::*;

verus! {

#[derive(Debug, Clone)]
pub struct SetChatroomAnnouncementRequest<'a> {
    pub app_id: &'a str,
    pub chatroom_id: &'a str,
    pub content: &'a str,
}

#[derive(Debug, Clone)]
pub struct GetChatroomAnnouncementRequest<'a> {
    pub app_id: &'a str,
    pub chatroom_id: &'a str,
    pub type_: i64,
}

#[derive(Debug, Clone, Default)]
pub struct GetChatroomAnnouncementResponse {
    pub chat_room_announcement: String,
    pub sender: String,
    pub create_time: String,
    pub expire_time: String,
}

#[derive(Debug, Clone)]
pub struct GetChatroomQrCodeRequest<'a> {
    pub app_id: &'a str,
    pub chatroom_id: &'a str,
}

#[derive(Debug, Clone, Default)]
pub struct GetChatroomQrCodeResponse {
    pub qr_img_base64: String,
    pub head_img_base64: String,
    pub qr_url: String,
}

#[derive(Debug, Clone)]
pub struct SaveContractListRequest<'a> {
    pub app_id: &'a str,
    pub chatroom_id: &'a str,
    pub save: bool,
}

#[derive(Debug, Clone)]
pub struct PinChatRequest<'a> {
    pub app_id: &'a str,
    pub chatroom_id: &'a str,
    pub add: bool,
}

#[derive(Debug, Clone)]
pub struct SetMsgSilenceRequest<'a> {
    pub app_id: &'a str,
    pub chatroom_id: &'a str,
    pub switch_: bool,
}

pub type SimpleGroupResponse = ();

} // verus!
