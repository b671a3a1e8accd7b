//! The client's configuration: default settings and the known bots, and how a
//! command's flags are resolved against them.
use vstd::prelude::*;
use crate::cli::error::{CliError, CliErrorView};
use crate::text::{owned, push_str, same_text};

verus! {

/// The characters of an optional string.
pub open spec fn opt_view(o: Option<String>) -> Option<Seq<char>> {
    match o {
        Some(s) => Some(s@),
        None => None,
    }
}

/// The stored configuration of the client.
#[derive(Debug, Default, Clone)]
pub struct CliConfig {
    pub token: Option<String>,
    pub base_url: Option<String>,
    pub app_id: Option<String>,
    pub region_id: Option<String>,
    pub device_type: Option<String>,
    pub bots: Vec<BotRecord>,
}

/// A bot known to the client.
#[derive(Debug, Clone, PartialEq, Eq)]
pub struct BotRecord {
    pub app_id: String,
    pub wxid: Option<String>,
    pub alias: Option<String>,
    pub token: Option<String>,
    pub webhook_secret: Option<String>,
}

/// The command-line flags of the `config` command.
pub struct ConfigArgs {
    pub token: Option<String>,
    pub base_url: Option<String>,
    pub app_id: Option<String>,
    pub region_id: Option<String>,
    pub device_type: Option<String>,
    pub list_bots: bool,
    pub alias: Option<String>,
    pub alias_target_app_id: Option<String>,
    pub alias_target_wxid: Option<String>,
}

/// A bot as values.
pub struct BotRecordView {
    pub app_id: Seq<char>,
    pub wxid: Option<Seq<char>>,
    pub alias: Option<Seq<char>>,
    pub token: Option<Seq<char>>,
    pub webhook_secret: Option<Seq<char>>,
}

impl View for BotRecord {
    type V = BotRecordView;

    open spec fn view(&self) -> BotRecordView {
        BotRecordView {
            app_id: self.app_id@,
            wxid: opt_view(self.wxid),
            alias: opt_view(self.alias),
            token: opt_view(self.token),
            webhook_secret: opt_view(self.webhook_secret),
        }
    }
}

/// A configuration as values.
pub struct CliConfigView {
    pub token: Option<Seq<char>>,
    pub base_url: Option<Seq<char>>,
    pub app_id: Option<Seq<char>>,
    pub region_id: Option<Seq<char>>,
    pub device_type: Option<Seq<char>>,
    pub bots: Seq<BotRecordView>,
}

impl View for CliConfig {
    type V = CliConfigView;

    open spec fn view(&self) -> CliConfigView {
        CliConfigView {
            token: opt_view(self.token),
            base_url: opt_view(self.base_url),
            app_id: opt_view(self.app_id),
            region_id: opt_view(self.region_id),
            device_type: opt_view(self.device_type),
            bots: self.bots@.map_values(|b: BotRecord| b@),
        }
    }
}

/// The bot is named by `key`: its app id, its wxid or its alias.
pub open spec fn names_bot(b: BotRecordView, key: Seq<char>) -> bool {
    b.app_id == key || b.wxid == Some(key) || b.alias == Some(key)
}

/// The bot is the target `key` of an alias: its app id or its wxid.
pub open spec fn is_alias_target(b: BotRecordView, key: Seq<char>) -> bool {
    b.app_id == key || b.wxid == Some(key)
}

/// The first index at or after `i` of a bot with app id `app_id`.
pub open spec fn index_with_app_id(bots: Seq<BotRecordView>, app_id: Seq<char>, i: int) -> Option<
    int,
>
    decreases bots.len() - i,
{
    if i < 0 || i >= bots.len() {
        None
    } else if bots[i].app_id == app_id {
        Some(i)
    } else {
        index_with_app_id(bots, app_id, i + 1)
    }
}

/// The first index at or after `i` of a bot named by `key`.
pub open spec fn index_named(bots: Seq<BotRecordView>, key: Seq<char>, i: int) -> Option<int>
    decreases bots.len() - i,
{
    if i < 0 || i >= bots.len() {
        None
    } else if names_bot(bots[i], key) {
        Some(i)
    } else {
        index_named(bots, key, i + 1)
    }
}

/// The first index at or after `i` of a bot that is the alias target `key`.
pub open spec fn index_of_target(bots: Seq<BotRecordView>, key: Seq<char>, i: int) -> Option<int>
    decreases bots.len() - i,
{
    if i < 0 || i >= bots.len() {
        None
    } else if is_alias_target(bots[i], key) {
        Some(i)
    } else {
        index_of_target(bots, key, i + 1)
    }
}

/// The app id of the first bot named by `key`.
pub open spec fn lookup(c: CliConfigView, key: Seq<char>) -> Option<Seq<char>> {
    match index_named(c.bots, key, 0) {
        Some(i) => Some(c.bots[i].app_id),
        None => None,
    }
}

/// The bots after recording that bot `app_id` has wxid `wxid`: the first bot with
/// that app id gets the wxid; without one, a new bot is appended.
pub open spec fn upserted(bots: Seq<BotRecordView>, app_id: Seq<char>, wxid: Option<Seq<char>>) -> Seq<
    BotRecordView,
> {
    match index_with_app_id(bots, app_id, 0) {
        Some(i) => bots.update(i, BotRecordView { wxid: wxid, ..bots[i] }),
        None => bots.push(
            BotRecordView { app_id, wxid, alias: None, token: None, webhook_secret: None },
        ),
    }
}

/// The bots after giving alias `alias` to the first bot that is the target `key`.
pub open spec fn aliased(bots: Seq<BotRecordView>, key: Seq<char>, alias: Seq<char>) -> Seq<
    BotRecordView,
> {
    match index_of_target(bots, key, 0) {
        Some(i) => bots.update(i, BotRecordView { alias: Some(alias), ..bots[i] }),
        None => bots,
    }
}

/// The settings other than the bots are the same.
pub open spec fn same_settings(a: CliConfigView, b: CliConfigView) -> bool {
    &&& a.token == b.token
    &&& a.base_url == b.base_url
    &&& a.app_id == b.app_id
    &&& a.region_id == b.region_id
    &&& a.device_type == b.device_type
}

/// A copy of an optional string.
pub fn clone_opt(o: &Option<String>) -> (r: Option<String>)
    ensures
        opt_view(r) == opt_view(*o),
{
    match o {
        Some(s) => Some(s.clone()),
        None => None,
    }
}

/// The characters of an optional string slice.
pub open spec fn opt_str_view(o: Option<&str>) -> Option<Seq<char>> {
    match o {
        Some(s) => Some(s@),
        None => None,
    }
}

/// A slice of an optional string (`Option::as_deref`).
pub fn opt_str(o: &Option<String>) -> (r: Option<&str>)
    ensures
        opt_str_view(r) == opt_view(*o),
{
    match o {
        Some(s) => Some(s.as_str()),
        None => None,
    }
}

/// `o` holds the text `t`.
pub fn opt_is(o: &Option<String>, t: &str) -> (r: bool)
    ensures
        r == (opt_view(*o) == Some(t@)),
{
    match o {
        Some(s) => same_text(s.as_str(), t),
        None => false,
    }
}

/// The first of two optional strings that is present (`Option::or`).
pub open spec fn or_view(a: Option<Seq<char>>, b: Option<Seq<char>>) -> Option<Seq<char>> {
    match a {
        Some(x) => Some(x),
        None => b,
    }
}

/// Records that bot `app_id` has wxid `wxid`: the first bot with that app id gets
/// the wxid, and without one a new bot with no alias, token or secret is added.
pub fn upsert_bot(config: &mut CliConfig, app_id: &str, wxid: Option<String>)
    ensures
        final(config)@.bots == upserted(old(config)@.bots, app_id@, opt_view(wxid)),
        same_settings(final(config)@, old(config)@),
{
    let ghost bots0 = config@.bots;
    let mut i: usize = 0;
    while i < config.bots.len()
        invariant
            i <= config.bots@.len(),
            config@ == old(config)@,
            bots0 == old(config)@.bots,
            index_with_app_id(bots0, app_id@, 0) == index_with_app_id(bots0, app_id@, i as int),
        decreases config.bots@.len() - i,
    {
        if same_text(config.bots[i].app_id.as_str(), app_id) {
            let mut bots: Vec<BotRecord> = Vec::new();
            std::mem::swap(&mut bots, &mut config.bots);
            let mut rec = bots.remove(i);
            rec.wxid = wxid;
            bots.insert(i, rec);
            config.bots = bots;
            assert(config@.bots =~= upserted(bots0, app_id@, opt_view(wxid)));
            return ;
        }
        i = i + 1;
    }
    config.bots.push(
        BotRecord { app_id: owned(app_id), wxid, alias: None, token: None, webhook_secret: None },
    );
    assert(config@.bots =~= upserted(bots0, app_id@, opt_view(wxid)));
}

/// The app id of the first bot whose app id, wxid or alias is `alias`.
pub fn lookup_bot(config: &CliConfig, alias: &str) -> (r: Option<String>)
    ensures
        opt_view(r) == lookup(config@, alias@),
{
    let mut i: usize = 0;
    while i < config.bots.len()
        invariant
            i <= config.bots@.len(),
            index_named(config@.bots, alias@, 0) == index_named(config@.bots, alias@, i as int),
        decreases config.bots@.len() - i,
    {
        let b = &config.bots[i];
        assert(config@.bots[i as int] == b@);
        if same_text(b.app_id.as_str(), alias) || opt_is(&b.wxid, alias) || opt_is(&b.alias, alias) {
            return Some(b.app_id.clone());
        }
        i = i + 1;
    }
    None
}

/// Gives alias `alias` to the first bot whose app id or wxid is `target`; false,
/// with nothing changed, when there is none.
pub fn set_alias(config: &mut CliConfig, target: &str, alias: String) -> (r: bool)
    ensures
        r == index_of_target(old(config)@.bots, target@, 0) is Some,
        final(config)@.bots == aliased(old(config)@.bots, target@, alias@),
        same_settings(final(config)@, old(config)@),
{
    let ghost bots0 = config@.bots;
    let mut i: usize = 0;
    while i < config.bots.len()
        invariant
            i <= config.bots@.len(),
            config@ == old(config)@,
            bots0 == old(config)@.bots,
            index_of_target(bots0, target@, 0) == index_of_target(bots0, target@, i as int),
        decreases config.bots@.len() - i,
    {
        let hit = {
            let b = &config.bots[i];
            assert(bots0[i as int] == b@);
            same_text(b.app_id.as_str(), target) || opt_is(&b.wxid, target)
        };
        if hit {
            let ghost a = alias@;
            let mut bots: Vec<BotRecord> = Vec::new();
            std::mem::swap(&mut bots, &mut config.bots);
            let mut rec = bots.remove(i);
            rec.alias = Some(alias);
            bots.insert(i, rec);
            config.bots = bots;
            assert(config@.bots =~= aliased(bots0, target@, a));
            return true;
        }
        i = i + 1;
    }
    assert(config@.bots =~= aliased(bots0, target@, alias@));
    false
}

/// A flag's value, else the configured value; without either, the setting
/// `field` is missing.
pub fn resolve_value(value: Option<String>, fallback: Option<String>, field: &str) -> (r: Result<
    String,
    CliError,
>)
    ensures
        match or_view(opt_view(value), opt_view(fallback)) {
            Some(v) => r matches Ok(s) && s@ == v,
            None => r matches Err(e) && e@ == CliErrorView::MissingValue(field@),
        },
{
    match value {
        Some(v) => Ok(v),
        None => match fallback {
            Some(f) => Ok(f),
            None => Err(CliError::MissingValue { field: owned(field) }),
        },
    }
}

/// The API address used when none is configured.
pub open spec fn default_base_url_text() -> Seq<char> {
    "http://api.geweapi.com"@
}

/// The API address used when none is configured.
pub fn default_base_url() -> (r: String)
    ensures
        r@ == default_base_url_text(),
{
    owned("http://api.geweapi.com")
}

/// What the bot flags select: with an alias, the app id of the bot it names
/// (an error when none does); without, the explicit app id, if any.
pub open spec fn resolved_bot(alias: Option<Seq<char>>, explicit: Option<Seq<char>>, c: CliConfigView) -> Result<
    Option<Seq<char>>,
    CliErrorView,
> {
    match alias {
        Some(a) => match lookup(c, a) {
            Some(app) => Ok(Some(app)),
            None => Err(CliErrorView::BotAliasNotFound(a)),
        },
        None => Ok(explicit),
    }
}

/// The app id that the bot flags select.
pub fn resolve_bot(alias: Option<String>, explicit: Option<String>, config: &CliConfig) -> (r: Result<
    Option<String>,
    CliError,
>)
    ensures
        match resolved_bot(opt_view(alias), opt_view(explicit), config@) {
            Ok(v) => r matches Ok(o) && opt_view(o) == v,
            Err(e) => r matches Err(x) && x@ == e,
        },
{
    match alias {
        Some(alias) => match lookup_bot(config, alias.as_str()) {
            Some(app) => Ok(Some(app)),
            None => Err(CliError::BotAliasNotFound { alias }),
        },
        None => Ok(explicit),
    }
}

/// Where and as whom a command talks to the API.
#[derive(Debug, Clone)]
pub struct Session {
    pub token: String,
    pub base_url: String,
    pub app_id: String,
}

/// A session as values.
pub struct SessionView {
    pub token: Seq<char>,
    pub base_url: Seq<char>,
    pub app_id: Seq<char>,
}

impl View for Session {
    type V = SessionView;

    open spec fn view(&self) -> SessionView {
        SessionView { token: self.token@, base_url: self.base_url@, app_id: self.app_id@ }
    }
}

/// The API address: the flag, else the configured one, else the default.
pub open spec fn resolved_base_url(flag: Option<Seq<char>>, c: CliConfigView) -> Seq<char> {
    match or_view(flag, c.base_url) {
        Some(u) => u,
        None => default_base_url_text(),
    }
}

pub fn resolve_base_url(base_url: Option<String>, config: &CliConfig) -> (r: String)
    ensures
        r@ == resolved_base_url(opt_view(base_url), config@),
{
    match base_url {
        Some(u) => u,
        None => match &config.base_url {
            Some(u) => u.clone(),
            None => default_base_url(),
        },
    }
}

/// The session of a command: the token (flag, else configured), the API
/// address, and the app id (the bot that the alias names, else the bot app id,
/// else the app id flag, else the configured app id). Checked in that order: a
/// missing token is reported before an unknown alias, which is reported before a
/// missing app id.
pub open spec fn resolved_session(
    token: Option<Seq<char>>,
    app_id: Option<Seq<char>>,
    bot_app_id: Option<Seq<char>>,
    bot_alias: Option<Seq<char>>,
    base_url: Option<Seq<char>>,
    c: CliConfigView,
) -> Result<SessionView, CliErrorView> {
    match or_view(token, c.token) {
        None => Err(CliErrorView::MissingValue("token"@)),
        Some(t) => match resolved_bot(bot_alias, or_view(bot_app_id, app_id), c) {
            Err(e) => Err(e),
            Ok(effective) => match or_view(effective, c.app_id) {
                None => Err(CliErrorView::MissingValue("app_id"@)),
                Some(a) => Ok(
                    SessionView { token: t, base_url: resolved_base_url(base_url, c), app_id: a },
                ),
            },
        },
    }
}

/// Resolves the token, API address and app id of a command.
pub fn resolve_session(
    token: Option<String>,
    app_id: Option<String>,
    bot_app_id: Option<String>,
    bot_alias: Option<String>,
    base_url: Option<String>,
    config: &CliConfig,
) -> (r: Result<Session, CliError>)
    ensures
        match resolved_session(
            opt_view(token),
            opt_view(app_id),
            opt_view(bot_app_id),
            opt_view(bot_alias),
            opt_view(base_url),
            config@,
        ) {
            Ok(s) => r matches Ok(x) && x@ == s,
            Err(e) => r matches Err(x) && x@ == e,
        },
{
    proof {
        reveal_strlit("token");
        reveal_strlit("app_id");
    }
    let token = match resolve_value(token, clone_opt(&config.token), "token") {
        Ok(t) => t,
        Err(e) => return Err(e),
    };
    let base_url = resolve_base_url(base_url, config);
    let explicit = match bot_app_id {
        Some(b) => Some(b),
        None => app_id,
    };
    let effective = match resolve_bot(bot_alias, explicit, config) {
        Ok(e) => e,
        Err(e) => return Err(e),
    };
    let app_id = match resolve_value(effective, clone_opt(&config.app_id), "app_id") {
        Ok(a) => a,
        Err(e) => return Err(e),
    };
    Ok(Session { token, base_url, app_id })
}

/// A warning that the `config` command prints.
#[derive(Debug, Clone, Copy, PartialEq, Eq)]
pub enum ConfigWarning {
    /// `--alias` names a target that no bot has.
    AliasTargetNotFound,
    /// `--alias` without `--alias-target-app-id` or `--alias-target-wxid`.
    AliasTargetMissing,
}

/// What the `config` command reports after applying its flags.
#[derive(Debug, Clone)]
pub enum ConfigReport {
    /// Something changed: the configuration is saved.
    Saved,
    /// The lines that list the known bots.
    BotList(Vec<String>),
    /// Nothing changed and no listing was asked for: the configuration is shown.
    Dump,
}

/// The outcome of the `config` command.
#[derive(Debug, Clone)]
pub struct ConfigOutcome {
    pub warning: Option<ConfigWarning>,
    pub report: ConfigReport,
}

/// The configuration after the `config` command's flags: each given setting
/// replaces the stored one, and an alias goes to the bot that its target names.
pub open spec fn configured(c: CliConfigView, args: ConfigArgsView) -> CliConfigView {
    CliConfigView {
        token: or_view(args.token, c.token),
        base_url: or_view(args.base_url, c.base_url),
        app_id: or_view(args.app_id, c.app_id),
        region_id: or_view(args.region_id, c.region_id),
        device_type: or_view(args.device_type, c.device_type),
        bots: match (args.alias, or_view(args.alias_target_app_id, args.alias_target_wxid)) {
            (Some(a), Some(t)) => aliased(c.bots, t, a),
            _ => c.bots,
        },
    }
}

/// The flags of the `config` command as values.
pub struct ConfigArgsView {
    pub token: Option<Seq<char>>,
    pub base_url: Option<Seq<char>>,
    pub app_id: Option<Seq<char>>,
    pub region_id: Option<Seq<char>>,
    pub device_type: Option<Seq<char>>,
    pub list_bots: bool,
    pub alias: Option<Seq<char>>,
    pub alias_target_app_id: Option<Seq<char>>,
    pub alias_target_wxid: Option<Seq<char>>,
}

impl View for ConfigArgs {
    type V = ConfigArgsView;

    open spec fn view(&self) -> ConfigArgsView {
        ConfigArgsView {
            token: opt_view(self.token),
            base_url: opt_view(self.base_url),
            app_id: opt_view(self.app_id),
            region_id: opt_view(self.region_id),
            device_type: opt_view(self.device_type),
            list_bots: self.list_bots,
            alias: opt_view(self.alias),
            alias_target_app_id: opt_view(self.alias_target_app_id),
            alias_target_wxid: opt_view(self.alias_target_wxid),
        }
    }
}

/// The `config` command changes something: a setting is given, or an alias is
/// given to a bot that its target names.
pub open spec fn config_changes(c: CliConfigView, args: ConfigArgsView) -> bool {
    ||| args.token is Some
    ||| args.base_url is Some
    ||| args.app_id is Some
    ||| args.region_id is Some
    ||| args.device_type is Some
    ||| (args.alias is Some && (or_view(args.alias_target_app_id, args.alias_target_wxid) matches Some(
        t,
    ) && index_of_target(c.bots, t, 0) is Some))
}

/// The warning of the `config` command, if any.
pub open spec fn config_warning(c: CliConfigView, args: ConfigArgsView) -> Option<ConfigWarning> {
    match args.alias {
        None => None,
        Some(_) => match or_view(args.alias_target_app_id, args.alias_target_wxid) {
            None => Some(ConfigWarning::AliasTargetMissing),
            Some(t) => if index_of_target(c.bots, t, 0) is Some {
                None
            } else {
                Some(ConfigWarning::AliasTargetNotFound)
            },
        },
    }
}

/// The line that lists a bot: `appId=… wxid=… alias=…`, with `<unknown>` and
/// `<none>` for a missing wxid and alias.
pub open spec fn bot_line(b: BotRecordView) -> Seq<char> {
    "appId="@ + b.app_id + " wxid="@ + (match b.wxid {
        Some(w) => w,
        None => "<unknown>"@,
    }) + " alias="@ + (match b.alias {
        Some(a) => a,
        None => "<none>"@,
    })
}

/// The lines that list the bots, or `No bots stored`.
pub open spec fn bot_listing(bots: Seq<BotRecordView>) -> Seq<Seq<char>> {
    if bots.len() == 0 {
        seq!["No bots stored"@]
    } else {
        bots.map_values(|b: BotRecordView| bot_line(b))
    }
}

fn bot_line_text(b: &BotRecord) -> (r: String)
    ensures
        r@ == bot_line(b@),
{
    let mut r = owned("appId=");
    push_str(&mut r, b.app_id.as_str());
    push_str(&mut r, " wxid=");
    match &b.wxid {
        Some(w) => push_str(&mut r, w.as_str()),
        None => push_str(&mut r, "<unknown>"),
    }
    push_str(&mut r, " alias=");
    match &b.alias {
        Some(a) => push_str(&mut r, a.as_str()),
        None => push_str(&mut r, "<none>"),
    }
    r
}

/// The lines that list the known bots.
pub fn list_bots(config: &CliConfig) -> (r: Vec<String>)
    ensures
        crate::text::views(r@) == bot_listing(config@.bots),
{
    let mut lines: Vec<String> = Vec::new();
    if config.bots.len() == 0 {
        lines.push(owned("No bots stored"));
        assert(crate::text::views(lines@) =~= bot_listing(config@.bots));
        return lines;
    }
    let mut i: usize = 0;
    while i < config.bots.len()
        invariant
            i <= config.bots@.len(),
            crate::text::views(lines@) == config@.bots.take(i as int).map_values(
                |b: BotRecordView| bot_line(b),
            ),
        decreases config.bots@.len() - i,
    {
        let line = bot_line_text(&config.bots[i]);
        let ghost before = crate::text::views(lines@);
        lines.push(line);
        assert(config@.bots[i as int] == config.bots@[i as int]@);
        assert(crate::text::views(lines@) =~= before.push(line@));
        assert(config@.bots.take(i + 1).map_values(|b: BotRecordView| bot_line(b)) =~= config@.bots.take(
            i as int,
        ).map_values(|b: BotRecordView| bot_line(b)).push(bot_line(config@.bots[i as int])));
        assert(crate::text::views(lines@) =~= config@.bots.take(i + 1).map_values(
            |b: BotRecordView| bot_line(b),
        ));
        i = i + 1;
    }
    assert(config@.bots.take(i as int) =~= config@.bots);
    lines
}

/// Applies the `config` command's flags: each given setting replaces the stored
/// one, `--alias` goes to the bot that `--alias-target-app-id` (else
/// `--alias-target-wxid`) names. The report is `Saved` when something changed,
/// else the bot listing when `--list-bots` is set, else `Dump`.
pub fn apply_config_args(args: ConfigArgs, config: &mut CliConfig) -> (r: ConfigOutcome)
    ensures
        final(config)@ == configured(old(config)@, args@),
        r.warning == config_warning(old(config)@, args@),
        config_changes(old(config)@, args@) ==> r.report is Saved,
        !config_changes(old(config)@, args@) && args.list_bots ==> (r.report matches ConfigReport::BotList(lines)
            && crate::text::views(lines@) == bot_listing(old(config)@.bots)),
        !config_changes(old(config)@, args@) && !args.list_bots ==> r.report is Dump,
{
    let ghost a = args@;
    let ConfigArgs {
        token,
        base_url,
        app_id,
        region_id,
        device_type,
        list_bots: want_list,
        alias,
        alias_target_app_id,
        alias_target_wxid,
    } = args;
    let mut updated = false;
    if let Some(t) = token {
        config.token = Some(t);
        updated = true;
    }
    if let Some(u) = base_url {
        config.base_url = Some(u);
        updated = true;
    }
    if let Some(x) = app_id {
        config.app_id = Some(x);
        updated = true;
    }
    if let Some(x) = region_id {
        config.region_id = Some(x);
        updated = true;
    }
    if let Some(x) = device_type {
        config.device_type = Some(x);
        updated = true;
    }
    let mut warning = None;
    if let Some(alias) = alias {
        let target = match alias_target_app_id {
            Some(t) => Some(t),
            None => alias_target_wxid,
        };
        if let Some(target) = target {
            if set_alias(config, target.as_str(), alias) {
                updated = true;
            } else {
                warning = Some(ConfigWarning::AliasTargetNotFound);
            }
        } else {
            warning = Some(ConfigWarning::AliasTargetMissing);
        }
    }
    let report = if updated {
        ConfigReport::Saved
    } else if want_list {
        ConfigReport::BotList(list_bots(config))
    } else {
        ConfigReport::Dump
    };
    ConfigOutcome { warning, report }
}

// ----------------------------------------------------------------------------
// Laws of the configuration
// ----------------------------------------------------------------------------

proof fn lemma_index_with_app_id(bots: Seq<BotRecordView>, a: Seq<char>, i: int)
    requires
        0 <= i,
    ensures
        match index_with_app_id(bots, a, i) {
            Some(j) => i <= j < bots.len() && bots[j].app_id == a && forall|k: int|
                i <= k < j ==> #[trigger] bots[k].app_id != a,
            None => forall|k: int| i <= k < bots.len() ==> #[trigger] bots[k].app_id != a,
        },
    decreases bots.len() - i,
{
    if i < bots.len() && bots[i].app_id != a {
        lemma_index_with_app_id(bots, a, i + 1);
    }
}

proof fn lemma_index_named(bots: Seq<BotRecordView>, key: Seq<char>, i: int)
    requires
        0 <= i,
    ensures
        match index_named(bots, key, i) {
            Some(j) => i <= j < bots.len() && names_bot(bots[j], key) && forall|k: int|
                i <= k < j ==> !names_bot(#[trigger] bots[k], key),
            None => forall|k: int| i <= k < bots.len() ==> !names_bot(#[trigger] bots[k], key),
        },
    decreases bots.len() - i,
{
    if i < bots.len() && !names_bot(bots[i], key) {
        lemma_index_named(bots, key, i + 1);
    }
}

proof fn lemma_index_of_target(bots: Seq<BotRecordView>, key: Seq<char>, i: int)
    requires
        0 <= i,
    ensures
        match index_of_target(bots, key, i) {
            Some(j) => i <= j < bots.len() && is_alias_target(bots[j], key),
            None => forall|k: int| i <= k < bots.len() ==> !is_alias_target(#[trigger] bots[k], key),
        },
    decreases bots.len() - i,
{
    if i < bots.len() && !is_alias_target(bots[i], key) {
        lemma_index_of_target(bots, key, i + 1);
    }
}

/// No two bots share an app id.
pub open spec fn unique_app_ids(bots: Seq<BotRecordView>) -> bool {
    forall|i: int, j: int|
        0 <= i < bots.len() && 0 <= j < bots.len() && i != j ==> #[trigger] bots[i].app_id
            != #[trigger] bots[j].app_id
}

/// Recording a bot keeps the app ids of the configured bots distinct.
pub proof fn law_upsert_keeps_app_ids_unique(
    bots: Seq<BotRecordView>,
    app_id: Seq<char>,
    wxid: Option<Seq<char>>,
)
    requires
        unique_app_ids(bots),
    ensures
        unique_app_ids(upserted(bots, app_id, wxid)),
{
    lemma_index_with_app_id(bots, app_id, 0);
    let r = upserted(bots, app_id, wxid);
    match index_with_app_id(bots, app_id, 0) {
        Some(k) => {
            assert forall|i: int, j: int|
                0 <= i < r.len() && 0 <= j < r.len() && i != j implies #[trigger] r[i].app_id
                != #[trigger] r[j].app_id by {
                assert(r[i].app_id == bots[i].app_id);
                assert(r[j].app_id == bots[j].app_id);
            }
        },
        None => {
            assert forall|i: int, j: int|
                0 <= i < r.len() && 0 <= j < r.len() && i != j implies #[trigger] r[i].app_id
                != #[trigger] r[j].app_id by {
                if i < bots.len() && j < bots.len() {
                    assert(r[i] == bots[i] && r[j] == bots[j]);
                }
            }
        },
    }
}

/// Recording a bot records it: afterwards the first bot with that app id has
/// the wxid given, and the other bots are as they were.
pub proof fn law_upsert_records_bot(bots: Seq<BotRecordView>, app_id: Seq<char>, wxid: Option<Seq<char>>)
    ensures
        index_with_app_id(upserted(bots, app_id, wxid), app_id, 0) matches Some(i) && upserted(
            bots,
            app_id,
            wxid,
        )[i].wxid == wxid,
        forall|k: int|
            0 <= k < bots.len() && bots[k].app_id != app_id ==> #[trigger] upserted(bots, app_id, wxid)[k]
                == bots[k],
{
    lemma_index_with_app_id(bots, app_id, 0);
    let r = upserted(bots, app_id, wxid);
    match index_with_app_id(bots, app_id, 0) {
        Some(k) => {
            lemma_index_with_app_id(r, app_id, 0);
            assert(r[k].app_id == app_id);
            match index_with_app_id(r, app_id, 0) {
                Some(j) => {
                    if j < k {
                        assert(r[j] == bots[j]);
                    }
                    if j > k {
                        assert(false);
                    }
                },
                None => {
                    assert(false);
                },
            }
        },
        None => {
            lemma_index_with_app_id(r, app_id, 0);
            let n = bots.len() as int;
            assert(r[n].app_id == app_id);
            match index_with_app_id(r, app_id, 0) {
                Some(j) => {
                    if j < n {
                        assert(r[j] == bots[j]);
                    }
                },
                None => {
                    assert(false);
                },
            }
        },
    }
}

/// Recording the same bot twice is the same as recording it once.
pub proof fn law_upsert_idempotent(bots: Seq<BotRecordView>, app_id: Seq<char>, wxid: Option<Seq<char>>)
    ensures
        upserted(upserted(bots, app_id, wxid), app_id, wxid) == upserted(bots, app_id, wxid),
{
    law_upsert_records_bot(bots, app_id, wxid);
    let r = upserted(bots, app_id, wxid);
    let i = index_with_app_id(r, app_id, 0)->0;
    lemma_index_with_app_id(r, app_id, 0);
    assert(BotRecordView { wxid: wxid, ..r[i] } == r[i]);
    assert(upserted(r, app_id, wxid) =~= r);
}

/// A bot named by a key is found by it: looking a key up gives the app id of
/// the first bot whose app id, wxid or alias is the key, and nothing when no bot
/// has it.
pub proof fn law_lookup_finds_named_bot(c: CliConfigView, key: Seq<char>)
    ensures
        lookup(c, key) is Some <==> exists|i: int| 0 <= i < c.bots.len() && names_bot(#[trigger] c.bots[i], key),
        lookup(c, key) matches Some(a) ==> exists|i: int|
            0 <= i < c.bots.len() && names_bot(#[trigger] c.bots[i], key) && c.bots[i].app_id == a,
{
    lemma_index_named(c.bots, key, 0);
}

/// After an alias is given to a bot, the alias finds a bot.
pub proof fn law_alias_then_lookup(c: CliConfigView, target: Seq<char>, alias: Seq<char>)
    requires
        index_of_target(c.bots, target, 0) is Some,
    ensures
        lookup(CliConfigView { bots: aliased(c.bots, target, alias), ..c }, alias) is Some,
{
    lemma_index_of_target(c.bots, target, 0);
    let i = index_of_target(c.bots, target, 0)->0;
    let nb = aliased(c.bots, target, alias);
    assert(names_bot(nb[i], alias));
    law_lookup_finds_named_bot(CliConfigView { bots: nb, ..c }, alias);
}

/// Flags win over the configuration: with a token flag and an app id flag (and
/// no bot alias), a command's session is exactly those flags and the API
/// address that the flag or configuration names.
pub proof fn law_flags_override_configuration(
    token: Seq<char>,
    app_id: Seq<char>,
    base_url: Option<Seq<char>>,
    c: CliConfigView,
)
    ensures
        resolved_session(Some(token), Some(app_id), None, None, base_url, c) == Ok::<
            SessionView,
            CliErrorView,
        >(SessionView { token, base_url: resolved_base_url(base_url, c), app_id }),
{
}

/// A bot alias selects its bot: when the alias names a stored bot, and a token
/// is given or configured, the session's app id is the app id of the first bot
/// the alias names (by app id, wxid or alias), whatever app ids the flags or the
/// configuration give.
pub proof fn law_alias_selects_its_bot(
    token: Option<Seq<char>>,
    app_id: Option<Seq<char>>,
    bot_app_id: Option<Seq<char>>,
    alias: Seq<char>,
    base_url: Option<Seq<char>>,
    c: CliConfigView,
    i: int,
)
    requires
        token is Some || c.token is Some,
        0 <= i < c.bots.len(),
        names_bot(c.bots[i], alias),
        forall|k: int| 0 <= k < i ==> !names_bot(#[trigger] c.bots[k], alias),
    ensures
        resolved_session(token, app_id, bot_app_id, Some(alias), base_url, c) matches Ok(s)
            && s.app_id == c.bots[i].app_id,
{
    lemma_index_named(c.bots, alias, 0);
    assert(index_named(c.bots, alias, 0) == Some(i));
}

/// A bot alias that names no stored bot is refused (once a token is known),
/// whatever app ids the flags or the configuration give.
pub proof fn law_unknown_alias_is_refused(
    token: Option<Seq<char>>,
    app_id: Option<Seq<char>>,
    bot_app_id: Option<Seq<char>>,
    alias: Seq<char>,
    base_url: Option<Seq<char>>,
    c: CliConfigView,
)
    requires
        token is Some || c.token is Some,
        forall|k: int| 0 <= k < c.bots.len() ==> !names_bot(#[trigger] c.bots[k], alias),
    ensures
        resolved_session(token, app_id, bot_app_id, Some(alias), base_url, c) == Err::<
            SessionView,
            CliErrorView,
        >(CliErrorView::BotAliasNotFound(alias)),
{
    lemma_index_named(c.bots, alias, 0);
}

/// The `config` command stores every setting given as a flag, and keeps every
/// setting not given; without an alias to give, the bots are unchanged.
pub proof fn law_config_stores_given_settings(c: CliConfigView, args: ConfigArgsView)
    ensures
        args.token matches Some(v) ==> configured(c, args).token == Some(v),
        args.base_url matches Some(v) ==> configured(c, args).base_url == Some(v),
        args.app_id matches Some(v) ==> configured(c, args).app_id == Some(v),
        args.region_id matches Some(v) ==> configured(c, args).region_id == Some(v),
        args.device_type matches Some(v) ==> configured(c, args).device_type == Some(v),
        args.token is None ==> configured(c, args).token == c.token,
        args.base_url is None ==> configured(c, args).base_url == c.base_url,
        args.app_id is None ==> configured(c, args).app_id == c.app_id,
        args.region_id is None ==> configured(c, args).region_id == c.region_id,
        args.device_type is None ==> configured(c, args).device_type == c.device_type,
        args.alias is None ==> configured(c, args).bots == c.bots,
{
}

} // verus!
