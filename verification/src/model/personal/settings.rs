use vstd::prelude::*;

verus! {

#[derive(Debug, Clone)]
pub struct PrivacySettingsRequest<'a> {
    pub app_id: &'a str,
    pub option: i32,
    pub open: bool,
}

pub type PrivacySettingsResponse = ();

} // verus!
