use vstd::prelude::*;

verus! {

#[derive(Debug, Clone)]
pub struct GetSafetyInfoRequest<'a> {
    pub app_id: &'a str,
}

#[derive(Debug, Clone, Default)]
pub struct SafetyDeviceRecord {
    pub uuid: String,
    pub device_name: String,
    pub device_type: String,
    pub last_time: i64,
}

#[derive(Debug, Clone, Default)]
pub struct GetSafetyInfoResponse {
    pub list: Vec<SafetyDeviceRecord>,
}

} // verus!
