use vstd::prelude::*;

verus! {

#[derive(Debug, Clone)]
pub struct AddLabelRequest<'a> {
    pub app_id: &'a str,
    pub label_name: &'a str,
}

#[derive(Debug, Clone, Default)]
pub struct LabelInfo {
    pub label_name: String,
    pub label_id: i64,
}

pub type AddLabelResponse = LabelInfo;

#[derive(Debug, Clone)]
pub struct DeleteLabelRequest<'a> {
    pub app_id: &'a str,
    pub label_ids: &'a str,
}

#[derive(Debug, Clone)]
pub struct ListLabelRequest<'a> {
    pub app_id: &'a str,
}

#[derive(Debug, Clone, Default)]
pub struct ListLabelResponse {
    pub label_list: Vec<LabelInfo>,
}

#[derive(Debug, Clone)]
pub struct ModifyLabelMemberRequest<'a> {
    pub app_id: &'a str,
    pub label_ids: &'a str,
    pub wx_ids: Vec<&'a str>,
}

} // verus!
