use vstd::prelude::*;

verus! {

#[derive(Debug, Clone)]
pub struct AddContactsRequest<'a> {
    pub app_id: &'a str,
    pub scene: i32,
    pub option: i32,
    pub v3: &'a str,
    pub v4: &'a str,
    pub content: &'a str,
}

pub type AddContactsResponse = ();

#[derive(Debug, Clone)]
pub struct SetFriendRemarkRequest<'a> {
    pub app_id: &'a str,
    pub wxid: &'a str,
    pub remark: &'a str,
}

pub type SetFriendRemarkResponse = ();

#[derive(Debug, Clone)]
pub struct SetFriendPermissionsRequest<'a> {
    pub app_id: &'a str,
    pub wxid: &'a str,
    pub only_chat: bool,
}

pub type SetFriendPermissionsResponse = ();

#[derive(Debug, Clone)]
pub struct UploadPhoneAddressListRequest<'a> {
    pub app_id: &'a str,
    pub phones: Vec<&'a str>,
    pub op_type: i32,
}

pub type UploadPhoneAddressListResponse = ();

#[derive(Debug, Clone)]
pub struct DeleteFriendRequest<'a> {
    pub app_id: &'a str,
    pub wxid: &'a str,
}

pub type DeleteFriendResponse = ();

} // verus!
