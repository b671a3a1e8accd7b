//! Video accounts (channels): the flags of the video-account commands.
use vstd::prelude::*;
use crate::cli::config::{
    clone_opt, opt_str, opt_str_view, opt_view, resolve_session, resolved_session, CliConfig, Session,
};
use crate::model::video_account::common::FinderSearchInfo;
use crate::cli::error::CliError;

pub use crate::cli::config::resolve_bot;

verus! {

#[derive(Clone)]
pub struct VideoAccountBaseArgs {
    pub token: Option<String>,
    pub app_id: Option<String>,
    pub bot_app_id: Option<String>,
    pub bot_alias: Option<String>,
    pub base_url: Option<String>,
}

pub enum VideoAccountCommands {
    UploadFinderVideo(UploadFinderVideoArgs),
    PublishFinderCdn(PublishFinderCdnArgs),
    PublishFinderWeb(PublishFinderWebArgs),
    SendFinderSns(SendFinderSnsArgs),
    SendFinderMsg(SendFinderMsgArgs),
    FollowFinder(FollowFinderArgs),
    FollowList(FollowListArgs),
    SearchFollow(SearchFollowArgs),
    SearchFinder(SearchFinderArgs),
    ScanFollow(ScanFollowArgs),
    ScanBrowse(ScanBrowseArgs),
    ScanLike(ScanLikeArgs),
    ScanFav(ScanFavArgs),
    ScanComment(ScanCommentArgs),
    ScanQrCode(ScanQrCodeArgs),
    ScanLoginChannels(ScanLoginChannelsArgs),
    IdFav(IdFavArgs),
    IdLike(IdLikeArgs),
    FinderOpt(FinderOptArgs),
    BrowseFinder(BrowseFinderArgs),
    LikeFavList(LikeFavListArgs),
    CommentFinder(CommentFinderArgs),
    CommentList(CommentListArgs),
    MentionList(MentionListArgs),
    ContactList(ContactListArgs),
    PostPrivateLetter(PostPrivateLetterArgs),
    PostPrivateLetterImg(PostPrivateLetterImgArgs),
    SyncPrivateLetterMsg(SyncPrivateLetterMsgArgs),
    CreateFinder(CreateFinderArgs),
    UpdateFinderProfile(UpdateFinderProfileArgs),
    GetFinderProfile(GetFinderProfileArgs),
    GetFinderQrCode(GetFinderQrCodeArgs),
    UserPage(UserPageArgs),
}

#[derive(Clone)]
pub struct UploadFinderVideoArgs {
    pub base: VideoAccountBaseArgs,
    pub video_url: String,
    pub cover_img_url: String,
}

#[derive(Clone)]
pub struct PublishFinderCdnArgs {
    pub base: VideoAccountBaseArgs,
    pub topic: Vec<String>,
    pub my_user_name: String,
    pub my_role_type: i32,
    pub description: String,
    pub file_url: String,
    pub thumb_url: String,
    pub mp4_identify: String,
    pub file_size: i64,
    pub thumb_md5: String,
    pub file_key: String,
}

#[derive(Clone)]
pub struct PublishFinderWebArgs {
    pub base: VideoAccountBaseArgs,
    pub title: String,
    pub video_url: String,
    pub thumb_url: String,
    pub description: String,
}

#[derive(Clone)]
pub struct SendFinderSnsArgs {
    pub base: VideoAccountBaseArgs,
    pub allow_wx_ids: Vec<String>,
    pub at_wx_ids: Vec<String>,
    pub disable_wx_ids: Vec<String>,
    pub id: i64,
    pub username: String,
    pub nickname: String,
    pub head_url: String,
    pub nonce_id: String,
    pub media_type: String,
    pub width: String,
    pub height: String,
    pub url: String,
    pub thumb_url: String,
    pub thumb_url_token: String,
    pub description: String,
    pub video_play_len: String,
}

#[derive(Clone)]
pub struct SendFinderMsgArgs {
    pub base: VideoAccountBaseArgs,
    pub to_wxid: String,
    pub id: i64,
    pub username: String,
    pub nickname: String,
    pub head_url: String,
    pub nonce_id: String,
    pub media_type: String,
    pub width: String,
    pub height: String,
    pub url: String,
    pub thumb_url: String,
    pub thumb_url_token: String,
    pub description: String,
    pub video_play_len: String,
}

#[derive(Clone)]
pub struct FollowFinderArgs {
    pub base: VideoAccountBaseArgs,
    pub my_user_name: String,
    pub my_role_type: i32,
    pub to_user_name: String,
    pub op_type: i32,
    pub search_cookies: Option<String>,
    pub search_doc_id: Option<String>,
    pub search_id: Option<String>,
}

#[derive(Clone)]
pub struct FollowListArgs {
    pub base: VideoAccountBaseArgs,
    pub my_user_name: String,
    pub my_role_type: i32,
    pub last_buffer: Option<String>,
}

#[derive(Clone)]
pub struct SearchFollowArgs {
    pub base: VideoAccountBaseArgs,
    pub my_user_name: String,
    pub my_role_type: i32,
    pub to_user_name: String,
    pub keyword: String,
}

#[derive(Clone)]
pub struct SearchFinderArgs {
    pub base: VideoAccountBaseArgs,
    pub content: String,
    pub category: Option<i32>,
    pub filter: Option<i32>,
    pub page: Option<i32>,
    pub cookie: Option<String>,
    pub search_id: Option<String>,
    pub offset: Option<i32>,
}

#[derive(Clone)]
pub struct ScanFollowArgs {
    pub base: VideoAccountBaseArgs,
    pub proxy_ip: String,
    pub my_user_name: String,
    pub my_role_type: i32,
    pub qr_content: String,
    pub object_id: String,
    pub object_nonce_id: String,
}

#[derive(Clone)]
pub struct ScanBrowseArgs {
    pub base: VideoAccountBaseArgs,
    pub my_user_name: String,
    pub my_role_type: i32,
    pub qr_content: String,
    pub object_id: i64,
}

#[derive(Clone)]
pub struct ScanLikeArgs {
    pub base: VideoAccountBaseArgs,
    pub my_user_name: String,
    pub my_role_type: i32,
    pub qr_content: String,
    pub object_id: i64,
}

pub type ScanFavArgs = ScanLikeArgs;

#[derive(Clone)]
pub struct ScanCommentArgs {
    pub base: VideoAccountBaseArgs,
    pub my_user_name: String,
    pub my_role_type: i32,
    pub qr_content: String,
    pub object_id: i64,
    pub comment_content: String,
    pub reply_username: Option<String>,
    pub ref_comment_id: Option<i64>,
    pub root_comment_id: Option<i64>,
}

#[derive(Clone)]
pub struct ScanQrCodeArgs {
    pub base: VideoAccountBaseArgs,
    pub my_user_name: String,
    pub my_role_type: i32,
    pub qr_content: String,
}

#[derive(Clone)]
pub struct ScanLoginChannelsArgs {
    pub base: VideoAccountBaseArgs,
    pub qr_content: String,
}

#[derive(Clone)]
pub struct IdFavArgs {
    pub base: VideoAccountBaseArgs,
    pub my_user_name: String,
    pub op_type: i32,
    pub object_nonce_id: String,
    pub session_buffer: String,
    pub object_id: i64,
    pub to_user_name: String,
    pub my_role_type: i32,
}

pub type IdLikeArgs = IdFavArgs;

#[derive(Clone)]
pub struct FinderOptArgs {
    pub base: VideoAccountBaseArgs,
    pub my_user_name: String,
    pub my_role_type: i32,
    pub to_user_name: String,
    pub op_type: i32,
    pub id: String,
    pub remain: i32,
}

#[derive(Clone)]
pub struct BrowseFinderArgs {
    pub base: VideoAccountBaseArgs,
    pub object_id: i64,
    pub session_buffer: Option<String>,
    pub object_nonce_id: String,
    pub my_user_name: String,
    pub my_role_type: i32,
}

#[derive(Clone)]
pub struct LikeFavListArgs {
    pub base: VideoAccountBaseArgs,
    pub my_user_name: String,
    pub my_role_type: i32,
    pub last_buffer: Option<String>,
    pub flag: i32,
}

#[derive(Clone)]
pub struct CommentFinderArgs {
    pub base: VideoAccountBaseArgs,
    pub proxy_ip: String,
    pub my_user_name: String,
    pub op_type: i32,
    pub object_nonce_id: String,
    pub session_buffer: String,
    pub object_id: i64,
    pub my_role_type: i32,
    pub content: String,
    pub comment_id: String,
    pub reply_user_name: String,
    pub ref_comment_id: i64,
    pub root_comment_id: i64,
}

#[derive(Clone)]
pub struct CommentListArgs {
    pub base: VideoAccountBaseArgs,
    pub object_id: i64,
    pub last_buffer: Option<String>,
    pub session_buffer: String,
    pub object_nonce_id: Option<String>,
    pub ref_comment_id: Option<i64>,
    pub root_comment_id: Option<i64>,
}

#[derive(Clone)]
pub struct MentionListArgs {
    pub base: VideoAccountBaseArgs,
    pub my_user_name: String,
    pub my_role_type: i32,
    pub req_scene: i32,
    pub last_buff: String,
}

#[derive(Clone)]
pub struct ContactListArgs {
    pub base: VideoAccountBaseArgs,
    pub my_user_name: String,
    pub my_role_type: i32,
    pub query_info: String,
}

#[derive(Clone)]
pub struct PostPrivateLetterArgs {
    pub base: VideoAccountBaseArgs,
    pub content: String,
    pub to_user_name: String,
    pub my_user_name: String,
    pub msg_session_id: String,
}

#[derive(Clone)]
pub struct PostPrivateLetterImgArgs {
    pub base: VideoAccountBaseArgs,
    pub to_user_name: String,
    pub my_user_name: String,
    pub msg_session_id: String,
    pub img_url: String,
}

#[derive(Clone)]
pub struct SyncPrivateLetterMsgArgs {
    pub base: VideoAccountBaseArgs,
    pub key_buff: Option<String>,
}

#[derive(Clone)]
pub struct CreateFinderArgs {
    pub base: VideoAccountBaseArgs,
    pub nick_name: String,
    pub head_img: String,
    pub signature: Option<String>,
    pub sex: Option<i32>,
}

#[derive(Clone)]
pub struct UpdateFinderProfileArgs {
    pub base: VideoAccountBaseArgs,
    pub nick_name: Option<String>,
    pub head_img: Option<String>,
    pub signature: Option<String>,
    pub sex: Option<i32>,
    pub country: Option<String>,
    pub province: Option<String>,
    pub city: Option<String>,
    pub my_user_name: String,
    pub my_role_type: i32,
}

#[derive(Clone)]
pub struct GetFinderProfileArgs {
    pub base: VideoAccountBaseArgs,
}

#[derive(Clone)]
pub struct GetFinderQrCodeArgs {
    pub base: VideoAccountBaseArgs,
    pub my_user_name: String,
    pub my_role_type: i32,
}

#[derive(Clone)]
pub struct UserPageArgs {
    pub base: VideoAccountBaseArgs,
    pub to_user_name: String,
    pub last_buffer: Option<String>,
    pub max_id: Option<i64>,
    pub search_cookies: Option<String>,
    pub search_id: Option<String>,
}

impl VideoAccountBaseArgs {
    /// The session that these flags select (see `resolve_session`).
    pub fn session(&self, config: &CliConfig) -> (r: Result<Session, CliError>)
        ensures
            match resolved_session(
                opt_view(self.token),
                opt_view(self.app_id),
                opt_view(self.bot_app_id),
                opt_view(self.bot_alias),
                opt_view(self.base_url),
                config@,
            ) {
                Ok(s) => r matches Ok(x) && x@ == s,
                Err(e) => r matches Err(x) && x@ == e,
            },
    {
        resolve_session(
            clone_opt(&self.token),
            clone_opt(&self.app_id),
            clone_opt(&self.bot_app_id),
            clone_opt(&self.bot_alias),
            clone_opt(&self.base_url),
            config,
        )
    }
}

/// The search info sent with a request: none when no search field is given,
/// else the given fields.
pub fn finder_search_info<'a>(
    cookies: &'a Option<String>,
    search_id: &'a Option<String>,
    doc_id: &'a Option<String>,
) -> (r: Option<FinderSearchInfo<'a>>)
    ensures
        r is None <==> (cookies is None && search_id is None && doc_id is None),
        r matches Some(i) ==> {
            &&& opt_str_view(i.cookies) == opt_view(*cookies)
            &&& opt_str_view(i.search_id) == opt_view(*search_id)
            &&& opt_str_view(i.doc_id) == opt_view(*doc_id)
        },
{
    if cookies.is_none() && search_id.is_none() && doc_id.is_none() {
        None
    } else {
        Some(
            FinderSearchInfo {
                cookies: opt_str(cookies),
                search_id: opt_str(search_id),
                doc_id: opt_str(doc_id),
            },
        )
    }
}

} // verus!
