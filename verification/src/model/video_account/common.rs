use vstd::prelude::*;

verus! {

#[derive(Debug, Clone, Default)]
pub struct FinderExtInfo {
    pub country: Option<String>,
    pub province: Option<String>,
    pub city: Option<String>,
    pub sex: Option<i32>,
}

#[derive(Debug, Clone, Default)]
pub struct FinderLotterySetting {
    pub setting_flag: Option<i32>,
    pub attend_type: Option<i32>,
}

/// A JSON value of the API, carried through as it came.
#[verifier::external_type_specification]
#[verifier::external_body]
pub struct ExJsonValue(serde_json::Value);

/// `Clone` of `serde_json::Value`: a deep copy. Nothing is claimed of the copy.
pub assume_specification[<serde_json::Value as std::clone::Clone>::clone](v: &serde_json::Value) -> (r:
    serde_json::Value);

#[derive(Debug, Clone, Default)]
pub struct FinderLiveInfo {
    pub anchor_status_flag: Option<i32>,
    pub switch_flag: Option<i32>,
    pub lottery_setting: Option<FinderLotterySetting>,
    pub mic_setting: Option<serde_json::Value>,
}

#[derive(Debug, Clone, Default)]
pub struct FinderContactProfile {
    pub username: String,
    pub nickname: String,
    pub head_url: String,
    pub seq: Option<i64>,
    pub signature: String,
    pub follow_flag: Option<i32>,
    pub auth_info: serde_json::Value,
    pub cover_img_url: Option<String>,
    pub spam_status: Option<i32>,
    pub ext_flag: Option<i32>,
    pub ext_info: Option<FinderExtInfo>,
    pub live_status: Option<i32>,
    pub live_cover_img_url: Option<String>,
    pub live_info: Option<FinderLiveInfo>,
    pub friend_follow_count: Option<i32>,
    pub one_time_flag: Option<i32>,
    pub status: Option<i32>,
    pub follow_time: Option<i64>,
}

#[derive(Debug, Clone, Default)]
pub struct FinderSearchInfo<'a> {
    pub cookies: Option<&'a str>,
    pub search_id: Option<&'a str>,
    pub doc_id: Option<&'a str>,
}

/// Raw JSON data of the video-account API.
pub type FinderRawData = serde_json::Value;

} // verus!
