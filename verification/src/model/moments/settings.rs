use vstd::prelude::*;

verus! {

#[derive(Debug, Clone)]
pub struct StrangerVisibilityRequest<'a> {
    pub app_id: &'a str,
    pub enabled: bool,
}

pub type StrangerVisibilityResponse = ();

#[derive(Debug, Clone)]
pub struct SetSnsVisibleScopeRequest<'a> {
    pub app_id: &'a str,
    pub option: i32,
}

pub type SetSnsVisibleScopeResponse = ();

#[derive(Debug, Clone)]
pub struct SetSnsPrivacyRequest<'a> {
    pub app_id: &'a str,
    pub sns_id: i64,
    pub open: bool,
}

pub type SetSnsPrivacyResponse = ();

} // verus!
