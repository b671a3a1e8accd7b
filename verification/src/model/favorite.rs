use vstd::prelude::*;

verus! {

#[derive(Debug, Clone)]
pub struct SyncFavorRequest<'a> {
    pub app_id: &'a str,
    pub sync_key: Option<&'a str>,
}

#[derive(Debug, Clone, Default)]
pub struct FavorSummary {
    pub fav_id: i64,
    pub favor_type: i32,
    pub flag: i32,
    pub update_time: i64,
}

#[derive(Debug, Clone, Default)]
pub struct SyncFavorResponse {
    pub sync_key: String,
    pub list: Vec<FavorSummary>,
}

#[derive(Debug, Clone)]
pub struct GetFavorContentRequest<'a> {
    pub app_id: &'a str,
    pub fav_id: i64,
}

#[derive(Debug, Clone, Default)]
pub struct GetFavorContentResponse {
    pub fav_id: i64,
    pub status: i32,
    pub flag: i32,
    pub update_time: i64,
    pub content: String,
}

#[derive(Debug, Clone)]
pub struct DeleteFavorRequest<'a> {
    pub app_id: &'a str,
    pub fav_id: i64,
}

} // verus!
