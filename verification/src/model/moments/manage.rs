use vstd::prelude::*;

verus! {

/// Deletes one of the bot's own moments.
#[derive(Debug, Clone)]
pub struct DeleteSnsRequest<'a> {
    pub app_id: &'a str,
    pub sns_id: i64,
}

} // verus!
