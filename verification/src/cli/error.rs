use vstd::prelude::*;
use crate::text::{push_str, IntErrorKind};

verus! {

/// Why a command could not go ahead.
#[derive(Debug, Clone)]
pub enum CliError {
    /// A setting given neither as a flag nor in the configuration.
    MissingValue { field: String },
    /// No configured bot has this app id, wxid or alias.
    BotAliasNotFound { alias: String },
    /// A configured bot has no token of its own and there is no global one.
    MissingBotToken { app_id: String },
    /// A message to send is not written `TYPE:CONTENT`.
    InvalidMessageFormat,
    /// A link message is not written `link:title|desc|url|thumb_url`.
    InvalidLinkFormat,
    /// A message to send names an unknown type.
    UnknownMessageType { msg_type: String },
    /// The listen address does not end in a port number.
    InvalidPort,
    /// An image spec does not have five or six comma-separated fields.
    InvalidImageInfo,
    /// A number in an image spec is not an `i64`.
    InvalidNumber(IntErrorKind),
    /// An image moment without any image.
    MissingImageInfo,
    /// A profile update that changes nothing.
    NoProfileChange,
    /// A label-member update without any wxid.
    MissingWxIds,
    /// A reply pattern that is not a valid regular expression.
    InvalidPattern { reason: String },
}

/// The mathematical value of a `CliError`: its kind and the text it carries.
pub enum CliErrorView {
    MissingValue(Seq<char>),
    BotAliasNotFound(Seq<char>),
    MissingBotToken(Seq<char>),
    InvalidMessageFormat,
    InvalidLinkFormat,
    UnknownMessageType(Seq<char>),
    InvalidPort,
    InvalidImageInfo,
    InvalidNumber(IntErrorKind),
    MissingImageInfo,
    NoProfileChange,
    MissingWxIds,
    InvalidPattern(Seq<char>),
}

impl View for CliError {
    type V = CliErrorView;

    open spec fn view(&self) -> CliErrorView {
        match self {
            CliError::MissingValue { field } => CliErrorView::MissingValue(field@),
            CliError::BotAliasNotFound { alias } => CliErrorView::BotAliasNotFound(alias@),
            CliError::MissingBotToken { app_id } => CliErrorView::MissingBotToken(app_id@),
            CliError::InvalidMessageFormat => CliErrorView::InvalidMessageFormat,
            CliError::InvalidLinkFormat => CliErrorView::InvalidLinkFormat,
            CliError::UnknownMessageType { msg_type } => CliErrorView::UnknownMessageType(
                msg_type@,
            ),
            CliError::InvalidPort => CliErrorView::InvalidPort,
            CliError::InvalidImageInfo => CliErrorView::InvalidImageInfo,
            CliError::InvalidNumber(k) => CliErrorView::InvalidNumber(*k),
            CliError::MissingImageInfo => CliErrorView::MissingImageInfo,
            CliError::NoProfileChange => CliErrorView::NoProfileChange,
            CliError::MissingWxIds => CliErrorView::MissingWxIds,
            CliError::InvalidPattern { reason } => CliErrorView::InvalidPattern(reason@),
        }
    }
}

impl CliErrorView {
    /// The text shown to the user.
    pub open spec fn text(self) -> Seq<char> {
        match self {
            CliErrorView::MissingValue(f) => f + " required; set via flag or config command"@,
            CliErrorView::BotAliasNotFound(a) => "bot alias not found: "@ + a,
            CliErrorView::MissingBotToken(a) => "Bot "@ + a + " 缺少 token 配置"@,
            CliErrorView::InvalidMessageFormat => "消息格式错误，应为 TYPE:CONTENT"@,
            CliErrorView::InvalidLinkFormat => "链接消息格式错误，应为 link:标题|描述|URL|缩略图URL"@,
            CliErrorView::UnknownMessageType(t) => "未知消息类型: "@ + t
                + "，支持 text/image/voice/video/link"@,
            CliErrorView::InvalidPort => "无效的端口号"@,
            CliErrorView::InvalidImageInfo => "img-info 需要 5 或 6 个字段：fileUrl,thumbUrl,fileMd5,width,height[,length]"@,
            CliErrorView::InvalidNumber(k) => k.text(),
            CliErrorView::MissingImageInfo => "至少提供一个 --img-info"@,
            CliErrorView::NoProfileChange => "至少需要提供一项要更新的个人信息"@,
            CliErrorView::MissingWxIds => "至少传入一个 wx-id"@,
            CliErrorView::InvalidPattern(r) => r,
        }
    }
}

impl CliError {
    /// The text shown to the user.
    pub fn message(&self) -> (r: String)
        ensures
            r@ == self@.text(),
    {
        match self {
            CliError::MissingValue { field } => {
                let mut r = field.clone();
                push_str(&mut r, " required; set via flag or config command");
                r
            },
            CliError::BotAliasNotFound { alias } => {
                let mut r = "bot alias not found: ".to_owned();
                push_str(&mut r, alias.as_str());
                r
            },
            CliError::MissingBotToken { app_id } => {
                let mut r = "Bot ".to_owned();
                push_str(&mut r, app_id.as_str());
                push_str(&mut r, " 缺少 token 配置");
                r
            },
            CliError::InvalidMessageFormat => "消息格式错误，应为 TYPE:CONTENT".to_owned(),
            CliError::InvalidLinkFormat => "链接消息格式错误，应为 link:标题|描述|URL|缩略图URL".to_owned(),
            CliError::UnknownMessageType { msg_type } => {
                let mut r = "未知消息类型: ".to_owned();
                push_str(&mut r, msg_type.as_str());
                push_str(&mut r, "，支持 text/image/voice/video/link");
                r
            },
            CliError::InvalidPort => "无效的端口号".to_owned(),
            CliError::InvalidImageInfo => "img-info 需要 5 或 6 个字段：fileUrl,thumbUrl,fileMd5,width,height[,length]".to_owned(),
            CliError::InvalidNumber(k) => k.message(),
            CliError::MissingImageInfo => "至少提供一个 --img-info".to_owned(),
            CliError::NoProfileChange => "至少需要提供一项要更新的个人信息".to_owned(),
            CliError::MissingWxIds => "至少传入一个 wx-id".to_owned(),
            CliError::InvalidPattern { reason } => reason.clone(),
        }
    }
}

} // verus!
