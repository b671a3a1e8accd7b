//! Moments: the flags of the moment commands, and how they become a request.
use vstd::prelude::*;
use crate::cli::error::{CliError, CliErrorView};
use crate::model::moments::publish::{SnsAudience, SnsImageInfo};
use crate::text::{parse_i64, parse_integer, ref_views, split, split_text, str_refs, views};

pub use crate::cli::config::resolve_bot;

verus! {

pub struct AudienceArgs {
    pub allow_wxids: Vec<String>,
    pub at_wxids: Vec<String>,
    pub disable_wxids: Vec<String>,
    pub privacy: Option<bool>,
    pub allow_tag_ids: Vec<String>,
    pub disable_tag_ids: Vec<String>,
}

pub struct SendMomentTextArgs {
    pub token: Option<String>,
    pub app_id: Option<String>,
    pub bot_app_id: Option<String>,
    pub bot_alias: Option<String>,
    pub content: String,
    pub audience: AudienceArgs,
    pub base_url: Option<String>,
}

pub struct SendMomentImageArgs {
    pub token: Option<String>,
    pub app_id: Option<String>,
    pub bot_app_id: Option<String>,
    pub bot_alias: Option<String>,
    pub audience: AudienceArgs,
    /// 通过 upload-moment-image 获取的信息，格式：fileUrl,thumbUrl,fileMd5,width,height[,length]，可重复
    pub img_infos: Vec<String>,
    pub content: Option<String>,
    pub base_url: Option<String>,
}

pub struct SendMomentVideoArgs {
    pub token: Option<String>,
    pub app_id: Option<String>,
    pub bot_app_id: Option<String>,
    pub bot_alias: Option<String>,
    pub audience: AudienceArgs,
    pub content: Option<String>,
    pub video_file_url: String,
    pub video_thumb_url: String,
    pub video_file_md5: String,
    pub video_length: Option<i64>,
    pub base_url: Option<String>,
}

pub struct SendMomentLinkArgs {
    pub token: Option<String>,
    pub app_id: Option<String>,
    pub bot_app_id: Option<String>,
    pub bot_alias: Option<String>,
    pub audience: AudienceArgs,
    pub content: Option<String>,
    pub thumb_url: String,
    pub link_url: String,
    pub title: String,
    pub description: String,
    pub base_url: Option<String>,
}

pub struct ForwardMomentArgs {
    pub token: Option<String>,
    pub app_id: Option<String>,
    pub bot_app_id: Option<String>,
    pub bot_alias: Option<String>,
    pub audience: AudienceArgs,
    pub sns_xml: String,
    pub base_url: Option<String>,
}

pub struct UploadMomentImageArgs {
    pub token: Option<String>,
    pub app_id: Option<String>,
    pub bot_app_id: Option<String>,
    pub bot_alias: Option<String>,
    pub img_urls: Vec<String>,
    pub base_url: Option<String>,
}

pub struct UploadMomentVideoArgs {
    pub token: Option<String>,
    pub app_id: Option<String>,
    pub bot_app_id: Option<String>,
    pub bot_alias: Option<String>,
    pub thumb_url: String,
    pub video_url: String,
    pub base_url: Option<String>,
}

pub struct DownloadMomentVideoArgs {
    pub token: Option<String>,
    pub app_id: Option<String>,
    pub bot_app_id: Option<String>,
    pub bot_alias: Option<String>,
    pub sns_xml: String,
    pub base_url: Option<String>,
}

pub struct DeleteMomentArgs {
    pub token: Option<String>,
    pub app_id: Option<String>,
    pub bot_app_id: Option<String>,
    pub bot_alias: Option<String>,
    pub sns_id: i64,
    pub base_url: Option<String>,
}

pub struct SetStrangerVisibilityArgs {
    pub token: Option<String>,
    pub app_id: Option<String>,
    pub bot_app_id: Option<String>,
    pub bot_alias: Option<String>,
    pub enabled: bool,
    pub base_url: Option<String>,
}

pub struct GetMomentDetailArgs {
    pub token: Option<String>,
    pub app_id: Option<String>,
    pub bot_app_id: Option<String>,
    pub bot_alias: Option<String>,
    pub sns_id: i64,
    pub base_url: Option<String>,
}

pub struct LikeMomentArgs {
    pub token: Option<String>,
    pub app_id: Option<String>,
    pub bot_app_id: Option<String>,
    pub bot_alias: Option<String>,
    pub sns_id: i64,
    pub oper_type: i32,
    pub wxid: String,
    pub base_url: Option<String>,
}

pub struct CommentMomentArgs {
    pub token: Option<String>,
    pub app_id: Option<String>,
    pub bot_app_id: Option<String>,
    pub bot_alias: Option<String>,
    pub sns_id: i64,
    pub oper_type: i32,
    pub wxid: String,
    pub comment_id: Option<String>,
    pub content: Option<String>,
    pub base_url: Option<String>,
}

pub struct GetContactMomentsArgs {
    pub token: Option<String>,
    pub app_id: Option<String>,
    pub bot_app_id: Option<String>,
    pub bot_alias: Option<String>,
    pub wxid: String,
    pub max_id: Option<i64>,
    pub decrypt: Option<bool>,
    pub first_page_md5: Option<String>,
    pub base_url: Option<String>,
}

pub struct GetSelfMomentsArgs {
    pub token: Option<String>,
    pub app_id: Option<String>,
    pub bot_app_id: Option<String>,
    pub bot_alias: Option<String>,
    pub max_id: Option<i64>,
    pub decrypt: Option<bool>,
    pub first_page_md5: Option<String>,
    pub base_url: Option<String>,
}

pub struct SetMomentVisibleScopeArgs {
    pub token: Option<String>,
    pub app_id: Option<String>,
    pub bot_app_id: Option<String>,
    pub bot_alias: Option<String>,
    pub option: i32,
    pub base_url: Option<String>,
}

pub struct SetMomentPrivacyArgs {
    pub token: Option<String>,
    pub app_id: Option<String>,
    pub bot_app_id: Option<String>,
    pub bot_alias: Option<String>,
    pub sns_id: i64,
    pub open: bool,
    pub base_url: Option<String>,
}

/// The listed values, or `None` when there are none (an empty list is sent as
/// an absent field).
pub open spec fn listed(values: Seq<String>) -> Option<Seq<Seq<char>>> {
    if values.len() == 0 {
        None
    } else {
        Some(views(values))
    }
}

/// The views of an optional list of slices.
pub open spec fn opt_ref_views(o: Option<Vec<&str>>) -> Option<Seq<Seq<char>>> {
    match o {
        Some(v) => Some(ref_views(v@)),
        None => None,
    }
}

/// Slices of the values, or `None` when there are none.
pub fn vec_opt(values: &Vec<String>) -> (r: Option<Vec<&str>>)
    ensures
        opt_ref_views(r) == listed(values@),
{
    if values.len() == 0 {
        None
    } else {
        Some(str_refs(values))
    }
}

/// The audience of a moment: each list that is empty is left out.
pub fn build_audience<'a>(args: &'a AudienceArgs) -> (r: SnsAudience<'a>)
    ensures
        opt_ref_views(r.allow_wxids) == listed(args.allow_wxids@),
        opt_ref_views(r.at_wxids) == listed(args.at_wxids@),
        opt_ref_views(r.disable_wxids) == listed(args.disable_wxids@),
        opt_ref_views(r.allow_tag_ids) == listed(args.allow_tag_ids@),
        opt_ref_views(r.disable_tag_ids) == listed(args.disable_tag_ids@),
        r.privacy == args.privacy,
{
    SnsAudience {
        allow_wxids: vec_opt(&args.allow_wxids),
        at_wxids: vec_opt(&args.at_wxids),
        disable_wxids: vec_opt(&args.disable_wxids),
        allow_tag_ids: vec_opt(&args.allow_tag_ids),
        disable_tag_ids: vec_opt(&args.disable_tag_ids),
        privacy: args.privacy,
    }
}

/// An image of a moment, as values.
pub struct ImageInfoView {
    pub file_url: Seq<char>,
    pub thumb_url: Seq<char>,
    pub file_md5: Seq<char>,
    pub length: Option<i64>,
    pub width: i64,
    pub height: i64,
}

impl View for SnsImageInfo {
    type V = ImageInfoView;

    open spec fn view(&self) -> ImageInfoView {
        ImageInfoView {
            file_url: self.file_url@,
            thumb_url: self.thumb_url@,
            file_md5: self.file_md5@,
            length: self.length,
            width: self.width,
            height: self.height,
        }
    }
}

/// An `i64` written in decimal, or why it is not one.
pub open spec fn i64_value(s: Seq<char>) -> Result<i64, CliErrorView> {
    match parse_integer(s, true, i64::MIN as int, i64::MAX as int) {
        Ok(n) => Ok(n as i64),
        Err(k) => Err(CliErrorView::InvalidNumber(k)),
    }
}

/// An image spec `fileUrl,thumbUrl,fileMd5,width,height[,length]`. The numbers
/// are read left to right, and the first that is not an `i64` is the error.
pub open spec fn parsed_img_info(spec: Seq<char>) -> Result<ImageInfoView, CliErrorView> {
    let p = split(spec, ',');
    if p.len() == 5 {
        match i64_value(p[3]) {
            Err(e) => Err(e),
            Ok(w) => match i64_value(p[4]) {
                Err(e) => Err(e),
                Ok(h) => Ok(
                    ImageInfoView {
                        file_url: p[0],
                        thumb_url: p[1],
                        file_md5: p[2],
                        length: None,
                        width: w,
                        height: h,
                    },
                ),
            },
        }
    } else if p.len() == 6 {
        match i64_value(p[3]) {
            Err(e) => Err(e),
            Ok(w) => match i64_value(p[4]) {
                Err(e) => Err(e),
                Ok(h) => match i64_value(p[5]) {
                    Err(e) => Err(e),
                    Ok(l) => Ok(
                        ImageInfoView {
                            file_url: p[0],
                            thumb_url: p[1],
                            file_md5: p[2],
                            length: Some(l),
                            width: w,
                            height: h,
                        },
                    ),
                },
            },
        }
    } else {
        Err(CliErrorView::InvalidImageInfo)
    }
}

fn read_i64(s: &String) -> (r: Result<i64, CliError>)
    ensures
        match i64_value(s@) {
            Ok(n) => r == Ok::<i64, CliError>(n),
            Err(e) => r matches Err(x) && x@ == e,
        },
{
    match parse_i64(s.as_str()) {
        Ok(n) => Ok(n),
        Err(k) => Err(CliError::InvalidNumber(k)),
    }
}

/// Reads an image spec of a moment.
pub fn parse_img_info(spec: &str) -> (r: Result<SnsImageInfo, CliError>)
    ensures
        match parsed_img_info(spec@) {
            Ok(x) => r matches Ok(y) && y@ == x,
            Err(e) => r matches Err(y) && y@ == e,
        },
{
    let mut parts = split_text(spec, ',');
    let ghost p = views(parts@);
    assert(p.len() == parts@.len());
    let n = parts.len();
    if n != 5 && n != 6 {
        return Err(CliError::InvalidImageInfo);
    }
    assert(forall|i: int| 0 <= i < n ==> #[trigger] p[i] == parts@[i]@);
    let width = match read_i64(&parts[3]) {
        Ok(w) => w,
        Err(e) => return Err(e),
    };
    let height = match read_i64(&parts[4]) {
        Ok(h) => h,
        Err(e) => return Err(e),
    };
    let length = if n == 6 {
        match read_i64(&parts[5]) {
            Ok(l) => Some(l),
            Err(e) => return Err(e),
        }
    } else {
        None
    };
    parts.truncate(3);
    let file_md5 = parts.pop().unwrap();
    let thumb_url = parts.pop().unwrap();
    let file_url = parts.pop().unwrap();
    Ok(SnsImageInfo { file_url, thumb_url, file_md5, length, width, height })
}

/// Reads every image spec, stopping at the first that does not parse.
pub fn parse_img_infos(specs: &Vec<String>) -> (r: Result<Vec<SnsImageInfo>, CliError>)
    ensures
        match r {
            Ok(xs) => xs@.len() == specs@.len() && forall|i: int|
                0 <= i < specs@.len() ==> parsed_img_info(#[trigger] specs@[i]@) == Ok::<
                    ImageInfoView,
                    CliErrorView,
                >(xs@[i]@),
            Err(e) => exists|i: int|
                0 <= i < specs@.len() && parsed_img_info(#[trigger] specs@[i]@) == Err::<
                    ImageInfoView,
                    CliErrorView,
                >(e@) && forall|j: int| 0 <= j < i ==> parsed_img_info(#[trigger] specs@[j]@) is Ok,
        },
{
    let mut out: Vec<SnsImageInfo> = Vec::new();
    let mut i: usize = 0;
    while i < specs.len()
        invariant
            i <= specs@.len(),
            out@.len() == i,
            forall|j: int|
                0 <= j < i ==> parsed_img_info(#[trigger] specs@[j]@) == Ok::<
                    ImageInfoView,
                    CliErrorView,
                >(out@[j]@),
        decreases specs@.len() - i,
    {
        match parse_img_info(specs[i].as_str()) {
            Ok(x) => out.push(x),
            Err(e) => {
                assert(forall|j: int| 0 <= j < i ==> parsed_img_info(#[trigger] specs@[j]@) is Ok);
                return Err(e);
            },
        }
        i = i + 1;
    }
    Ok(out)
}

/// The images of an image moment: at least one is required.
pub fn moment_images(specs: &Vec<String>) -> (r: Result<Vec<SnsImageInfo>, CliError>)
    ensures
        specs@.len() == 0 ==> (r matches Err(e) && e@ is MissingImageInfo),
        specs@.len() > 0 ==> match r {
            Ok(xs) => xs@.len() == specs@.len() && forall|i: int|
                0 <= i < specs@.len() ==> parsed_img_info(#[trigger] specs@[i]@) == Ok::<
                    ImageInfoView,
                    CliErrorView,
                >(xs@[i]@),
            Err(e) => exists|i: int|
                0 <= i < specs@.len() && parsed_img_info(#[trigger] specs@[i]@) == Err::<
                    ImageInfoView,
                    CliErrorView,
                >(e@) && forall|j: int| 0 <= j < i ==> parsed_img_info(#[trigger] specs@[j]@) is Ok,
        },
{
    if specs.len() == 0 {
        return Err(CliError::MissingImageInfo);
    }
    parse_img_infos(specs)
}

} // verus!
