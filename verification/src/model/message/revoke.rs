use vstd::prelude::*;

verus! {

#[derive(Debug, Clone)]
pub struct RevokeMessageRequest<'a> {
    pub app_id: &'a str,
    pub to_wxid: &'a str,
    pub msg_id: &'a str,
    pub new_msg_id: &'a str,
    pub create_time: &'a str,
}

} // verus!
