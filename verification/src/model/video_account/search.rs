use vstd::prelude::*;
use crate::model::video_account::common::FinderRawData;

verus! {

#[derive(Debug, Clone)]
pub struct SearchFinderRequest<'a> {
    pub app_id: &'a str,
    pub content: &'a str,
    pub category: Option<i32>,
    pub filter: Option<i32>,
    pub page: Option<i32>,
    pub cookie: Option<&'a str>,
    pub search_id: Option<&'a str>,
    pub offset: Option<i32>,
}

pub type SearchFinderResponse = FinderRawData;

} // verus!
