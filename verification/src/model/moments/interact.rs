use vstd::prelude::*;

verus! {

#[derive(Debug, Clone)]
pub struct LikeSnsRequest<'a> {
    pub app_id: &'a str,
    pub sns_id: i64,
    pub oper_type: i32,
    pub wxid: &'a str,
}

pub type LikeSnsResponse = ();

#[derive(Debug, Clone)]
pub struct CommentSnsRequest<'a> {
    pub app_id: &'a str,
    pub sns_id: i64,
    pub oper_type: i32,
    pub wxid: &'a str,
    pub comment_id: Option<&'a str>,
    pub content: Option<&'a str>,
}

pub type CommentSnsResponse = ();

} // verus!
