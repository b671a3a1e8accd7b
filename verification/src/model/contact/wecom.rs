use vstd::prelude::*;

verus! {

#[derive(Debug, Clone)]
pub struct SearchWecomRequest<'a> {
    pub app_id: &'a str,
    pub scene: i32,
    pub content: &'a str,
}

#[derive(Debug, Clone, Default)]
pub struct SearchWecomResponse {
    pub nick_name: String,
    pub sex: i32,
    pub signature: String,
    pub big_head_img_url: String,
    pub small_head_img_url: String,
    pub v3: String,
    pub v4: String,
}

#[derive(Debug, Clone)]
pub struct SyncWecomContactsRequest<'a> {
    pub app_id: &'a str,
}

#[derive(Debug, Clone, Default)]
pub struct WecomContact {
    pub user_name: String,
    pub nick_name: String,
    pub remark: String,
    pub big_head_img: String,
    pub small_head_img: String,
    pub app_id: String,
    pub desc_wording_id: String,
}

pub type SyncWecomContactsResponse = Vec<WecomContact>;

#[derive(Debug, Clone)]
pub struct AddWecomContactRequest<'a> {
    pub app_id: &'a str,
    pub v3: &'a str,
    pub v4: &'a str,
}

pub type AddWecomContactResponse = ();

#[derive(Debug, Clone)]
pub struct GetWecomContactDetailRequest<'a> {
    pub app_id: &'a str,
    pub to_user_name: &'a str,
}

#[derive(Debug, Clone, Default)]
pub struct WecomContactDetail {
    pub user_name: String,
    pub nick_name: String,
    pub remark: String,
    pub big_head_img: String,
    pub small_head_img: String,
    pub app_id: String,
    pub desc_wording_id: String,
    pub wording: String,
    pub wording_pinyin: String,
    pub wording_quanpin: String,
}

pub type GetWecomContactDetailResponse = WecomContactDetail;

} // verus!
