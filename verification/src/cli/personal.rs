//! Personal settings: the flags of the profile commands.
use vstd::prelude::*;
use crate::cli::config::{opt_str, opt_str_view, opt_view};
use crate::cli::error::CliError;
use crate::model::personal::profile::UpdateProfileRequest;

pub use crate::cli::config::resolve_bot;

verus! {

pub struct GetProfileArgs {
    pub token: Option<String>,
    pub app_id: Option<String>,
    pub bot_app_id: Option<String>,
    pub bot_alias: Option<String>,
    pub base_url: Option<String>,
}

pub struct UpdateProfileArgs {
    pub token: Option<String>,
    pub app_id: Option<String>,
    pub bot_app_id: Option<String>,
    pub bot_alias: Option<String>,
    pub nick_name: Option<String>,
    pub country: Option<String>,
    pub province: Option<String>,
    pub city: Option<String>,
    pub sex: Option<i32>,
    pub signature: Option<String>,
    pub base_url: Option<String>,
}

pub struct UpdateHeadImgArgs {
    pub token: Option<String>,
    pub app_id: Option<String>,
    pub bot_app_id: Option<String>,
    pub bot_alias: Option<String>,
    pub head_img_url: String,
    pub base_url: Option<String>,
}

pub struct GetQrCodeArgs {
    pub token: Option<String>,
    pub app_id: Option<String>,
    pub bot_app_id: Option<String>,
    pub bot_alias: Option<String>,
    pub base_url: Option<String>,
}

pub struct PrivacySettingsArgs {
    pub token: Option<String>,
    pub app_id: Option<String>,
    pub bot_app_id: Option<String>,
    pub bot_alias: Option<String>,
    pub option: i32,
    pub open: bool,
    pub base_url: Option<String>,
}

pub struct GetSafetyInfoArgs {
    pub token: Option<String>,
    pub app_id: Option<String>,
    pub bot_app_id: Option<String>,
    pub bot_alias: Option<String>,
    pub base_url: Option<String>,
}

/// The update changes something: at least one field is given.
pub open spec fn profile_changes(args: &UpdateProfileArgs) -> bool {
    ||| args.nick_name is Some
    ||| args.country is Some
    ||| args.province is Some
    ||| args.city is Some
    ||| args.sex is Some
    ||| args.signature is Some
}

/// The profile update request for `app_id`: the given fields, each absent one
/// left unchanged. At least one field must be given.
pub fn update_profile_request<'a>(app_id: &'a str, args: &'a UpdateProfileArgs) -> (r: Result<
    UpdateProfileRequest<'a>,
    CliError,
>)
    ensures
        !profile_changes(args) ==> (r matches Err(e) && e@ is NoProfileChange),
        profile_changes(args) ==> (r matches Ok(req) && {
            &&& req.app_id@ == app_id@
            &&& opt_str_view(req.nick_name) == opt_view(args.nick_name)
            &&& opt_str_view(req.country) == opt_view(args.country)
            &&& opt_str_view(req.province) == opt_view(args.province)
            &&& opt_str_view(req.city) == opt_view(args.city)
            &&& req.sex == args.sex
            &&& opt_str_view(req.signature) == opt_view(args.signature)
        }),
{
    if args.nick_name.is_none() && args.country.is_none() && args.province.is_none()
        && args.city.is_none() && args.sex.is_none() && args.signature.is_none() {
        return Err(CliError::NoProfileChange);
    }
    Ok(
        UpdateProfileRequest {
            app_id,
            nick_name: opt_str(&args.nick_name),
            country: opt_str(&args.country),
            province: opt_str(&args.province),
            city: opt_str(&args.city),
            sex: args.sex,
            signature: opt_str(&args.signature),
        },
    )
}

/// An update is refused only when no field is given: any one of the nickname,
/// country, province, city, sex and signature makes it go through.
pub proof fn law_any_field_is_an_update(args: &UpdateProfileArgs)
    ensures
        args.nick_name is Some ==> profile_changes(args),
        args.country is Some ==> profile_changes(args),
        args.province is Some ==> profile_changes(args),
        args.city is Some ==> profile_changes(args),
        args.sex is Some ==> profile_changes(args),
        args.signature is Some ==> profile_changes(args),
        !profile_changes(args) ==> args.nick_name is None && args.country is None
            && args.province is None && args.city is None && args.sex is None
            && args.signature is None,
{
}

} // verus!
