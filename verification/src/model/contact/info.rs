use vstd::prelude::*;

verus! {

#[derive(Debug, Clone)]
pub struct FetchContactsListRequest<'a> {
    pub app_id: &'a str,
}

#[derive(Debug, Clone, Default)]
pub struct FetchContactsListResponse {
    pub friends: Vec<String>,
    pub chatrooms: Vec<String>,
    pub ghs: Vec<String>,
}

#[derive(Debug, Clone)]
pub struct FetchContactsListCacheRequest<'a> {
    pub app_id: &'a str,
}

pub type FetchContactsListCacheResponse = ();

#[derive(Debug, Clone)]
pub struct SearchContactsRequest<'a> {
    pub app_id: &'a str,
    pub contacts_info: &'a str,
}

#[derive(Debug, Clone, Default)]
pub struct SearchContactsResponse {
    pub v3: String,
    pub nick_name: String,
    pub sex: i32,
    pub signature: Option<String>,
    pub big_head_img_url: String,
    pub small_head_img_url: String,
    pub v4: Option<String>,
}

#[derive(Debug, Clone)]
pub struct GetContactBriefInfoRequest<'a> {
    pub app_id: &'a str,
    pub wxids: Vec<&'a str>,
}

#[derive(Debug, Clone, Default)]
pub struct ContactBriefInfo {
    pub user_name: String,
    pub nick_name: String,
    pub py_initial: String,
    pub quan_pin: String,
    pub sex: i32,
    pub remark: String,
    pub remark_py_initial: String,
    pub remark_quan_pin: String,
    pub signature: Option<String>,
    pub alias: String,
    pub sns_bg_img: Option<String>,
    pub country: String,
    pub big_head_img_url: String,
    pub small_head_img_url: String,
    pub description: Option<String>,
    pub card_img_url: Option<String>,
    pub label_list: String,
    pub province: String,
    pub city: String,
    pub phone_num_list: Option<String>,
}

pub type GetContactBriefInfoResponse = Vec<ContactBriefInfo>;

#[derive(Debug, Clone)]
pub struct GetContactDetailInfoRequest<'a> {
    pub app_id: &'a str,
    pub wxids: Vec<&'a str>,
}

#[derive(Debug, Clone, Default)]
pub struct ContactDetailInfo {
    pub user_name: String,
    pub nick_name: String,
    pub py_initial: Option<String>,
    pub quan_pin: String,
    pub sex: i32,
    pub remark: Option<String>,
    pub remark_py_initial: Option<String>,
    pub remark_quan_pin: Option<String>,
    pub signature: String,
    pub alias: String,
    pub sns_bg_img: String,
    pub country: String,
    pub big_head_img_url: String,
    pub small_head_img_url: String,
    pub description: Option<String>,
    pub card_img_url: Option<String>,
    pub label_list: Option<String>,
    pub province: Option<String>,
    pub city: Option<String>,
    pub phone_num_list: Option<String>,
}

pub type GetContactDetailInfoResponse = Vec<ContactDetailInfo>;

#[derive(Debug, Clone)]
pub struct GetPhoneAddressListRequest<'a> {
    pub app_id: &'a str,
    pub phones: Option<Vec<&'a str>>,
}

#[derive(Debug, Clone, Default)]
pub struct PhoneContact {
    pub user_name: String,
    pub v4: Option<String>,
    pub nick_name: Option<String>,
    pub sex: i32,
    pub phone_md5: String,
    pub signature: String,
    pub alias: Option<String>,
    pub country: String,
    pub big_head_img_url: String,
    pub small_head_img_url: String,
    pub province: String,
    pub city: String,
    pub personal_card: i32,
}

pub type GetPhoneAddressListResponse = Vec<PhoneContact>;

#[derive(Debug, Clone)]
pub struct CheckRelationRequest<'a> {
    pub app_id: &'a str,
    pub wxids: Vec<&'a str>,
}

#[derive(Debug, Clone, Default)]
pub struct ContactRelationStatus {
    pub wxid: String,
    pub relation: i32,
}

pub type CheckRelationResponse = Vec<ContactRelationStatus>;

} // verus!
