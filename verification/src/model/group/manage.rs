use vstd::prelude::*;

verus! {

#[derive(Debug, Clone)]
pub struct CreateChatroomRequest<'a> {
    pub app_id: &'a str,
    pub wxids: Vec<&'a str>,
}

#[derive(Debug, Clone, Default)]
pub struct CreateChatroomResponse {
    pub head_img_base64: Option<String>,
    pub chatroom_id: String,
}

#[derive(Debug, Clone)]
pub struct DisbandChatroomRequest<'a> {
    pub app_id: &'a str,
    pub chatroom_id: &'a str,
}

#[derive(Debug, Clone)]
pub struct QuitChatroomRequest<'a> {
    pub app_id: &'a str,
    pub chatroom_id: &'a str,
}

#[derive(Debug, Clone)]
pub struct ModifyChatroomNameRequest<'a> {
    pub app_id: &'a str,
    pub chatroom_name: &'a str,
    pub chatroom_id: &'a str,
}

#[derive(Debug, Clone)]
pub struct ModifyChatroomRemarkRequest<'a> {
    pub app_id: &'a str,
    pub chatroom_remark: &'a str,
    pub chatroom_id: &'a str,
}

#[derive(Debug, Clone)]
pub struct ModifyChatroomNickNameForSelfRequest<'a> {
    pub app_id: &'a str,
    pub chatroom_id: &'a str,
    pub nick_name: &'a str,
}

pub type SimpleGroupResponse = ();

} // verus!
