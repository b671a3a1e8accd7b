//! Labels: the flags of the label commands.
use vstd::prelude::*;
use crate::cli::config::{clone_opt, opt_view, resolve_session, resolved_session, CliConfig, Session};
use crate::cli::error::CliError;

pub use crate::cli::config::resolve_bot;

verus! {

#[derive(Clone)]
pub struct LabelBaseArgs {
    pub token: Option<String>,
    pub app_id: Option<String>,
    pub bot_app_id: Option<String>,
    pub bot_alias: Option<String>,
    pub base_url: Option<String>,
}

#[derive(Clone)]
pub struct AddLabelArgs {
    pub base: LabelBaseArgs,
    pub label_name: String,
}

#[derive(Clone)]
pub struct DeleteLabelArgs {
    pub base: LabelBaseArgs,
    /// 标签 ID，多个用逗号拼接
    pub label_ids: String,
}

#[derive(Clone)]
pub struct ListLabelArgs {
    pub base: LabelBaseArgs,
}

#[derive(Clone)]
pub struct ModifyLabelMembersArgs {
    pub base: LabelBaseArgs,
    /// 目标好友 wxid，多个用逗号分隔
    pub wx_ids: Vec<String>,
    /// 标签 ID 列表，多个逗号分隔，需全量覆盖
    pub label_ids: String,
}

impl LabelBaseArgs {
    /// The session that these flags select (see `resolve_session`).
    pub fn session(&self, config: &CliConfig) -> (r: Result<Session, CliError>)
        ensures
            match resolved_session(
                opt_view(self.token),
                opt_view(self.app_id),
                opt_view(self.bot_app_id),
                opt_view(self.bot_alias),
                opt_view(self.base_url),
                config@,
            ) {
                Ok(s) => r matches Ok(x) && x@ == s,
                Err(e) => r matches Err(x) && x@ == e,
            },
    {
        resolve_session(
            clone_opt(&self.token),
            clone_opt(&self.app_id),
            clone_opt(&self.bot_app_id),
            clone_opt(&self.bot_alias),
            clone_opt(&self.base_url),
            config,
        )
    }
}

/// A label-member update names at least one wxid.
pub fn check_label_members(args: &ModifyLabelMembersArgs) -> (r: Result<(), CliError>)
    ensures
        r is Ok <==> args.wx_ids@.len() > 0,
        r matches Err(e) ==> e@ is MissingWxIds,
{
    if args.wx_ids.len() == 0 {
        Err(CliError::MissingWxIds)
    } else {
        Ok(())
    }
}

} // verus!
