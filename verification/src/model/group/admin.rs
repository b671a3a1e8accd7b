use vstd::prelude::*;

verus! {

#[derive(Debug, Clone)]
pub struct AdminOperateRequest<'a> {
    pub app_id: &'a str,
    pub chatroom_id: &'a str,
    pub wxid: &'a str,
    pub is_admin: bool,
}

pub type SimpleGroupResponse = ();

} // verus!
