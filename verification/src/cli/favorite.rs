//! Favorites: the flags of the favorite commands.
use vstd::prelude::*;
use crate::cli::config::{clone_opt, opt_view, resolve_session, resolved_session, CliConfig, Session};
use crate::cli::error::CliError;

pub use crate::cli::config::resolve_bot;

verus! {

#[derive(Clone)]
pub struct FavoriteBaseArgs {
    pub token: Option<String>,
    pub app_id: Option<String>,
    pub bot_app_id: Option<String>,
    pub bot_alias: Option<String>,
    pub base_url: Option<String>,
}

#[derive(Clone)]
pub struct SyncFavoriteArgs {
    pub base: FavoriteBaseArgs,
    pub sync_key: Option<String>,
}

#[derive(Clone)]
pub struct GetFavoriteContentArgs {
    pub base: FavoriteBaseArgs,
    pub fav_id: i64,
}

#[derive(Clone)]
pub struct DeleteFavoriteArgs {
    pub base: FavoriteBaseArgs,
    pub fav_id: i64,
}

impl FavoriteBaseArgs {
    /// The session that these flags select (see `resolve_session`).
    pub fn session(&self, config: &CliConfig) -> (r: Result<Session, CliError>)
        ensures
            match resolved_session(
                opt_view(self.token),
                opt_view(self.app_id),
                opt_view(self.bot_app_id),
                opt_view(self.bot_alias),
                opt_view(self.base_url),
                config@,
            ) {
                Ok(s) => r matches Ok(x) && x@ == s,
                Err(e) => r matches Err(x) && x@ == e,
            },
    {
        resolve_session(
            clone_opt(&self.token),
            clone_opt(&self.app_id),
            clone_opt(&self.bot_app_id),
            clone_opt(&self.bot_alias),
            clone_opt(&self.base_url),
            config,
        )
    }
}

} // verus!
