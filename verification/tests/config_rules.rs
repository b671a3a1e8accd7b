use gewe::cli::config::{
    apply_config_args, list_bots, lookup_bot, resolve_base_url, resolve_bot, resolve_session,
    set_alias, upsert_bot, BotRecord, CliConfig, ConfigArgs, ConfigReport, ConfigWarning,
};

fn bot(app: &str, wxid: Option<&str>, alias: Option<&str>) -> BotRecord {
    BotRecord {
        app_id: app.to_string(),
        wxid: wxid.map(|s| s.to_string()),
        alias: alias.map(|s| s.to_string()),
        token: None,
        webhook_secret: None,
    }
}

fn no_flags() -> ConfigArgs {
    ConfigArgs {
        token: None,
        base_url: None,
        app_id: None,
        region_id: None,
        device_type: None,
        list_bots: false,
        alias: None,
        alias_target_app_id: None,
        alias_target_wxid: None,
    }
}

#[test]
fn upsert_twice_is_upsert_once() {
    let mut once = CliConfig::default();
    upsert_bot(&mut once, "app1", Some("w1".to_string()));
    let mut twice = once.clone();
    upsert_bot(&mut twice, "app1", Some("w1".to_string()));
    assert_eq!(once.bots, twice.bots);
}

#[test]
fn upsert_keeps_app_ids_distinct() {
    let mut c = CliConfig::default();
    for (a, w) in [("a", "1"), ("b", "2"), ("a", "3"), ("c", "4"), ("b", "5")] {
        upsert_bot(&mut c, a, Some(w.to_string()));
    }
    let ids: Vec<&str> = c.bots.iter().map(|b| b.app_id.as_str()).collect();
    assert_eq!(ids, vec!["a", "b", "c"]);
    assert_eq!(c.bots[0].wxid.as_deref(), Some("3"));
    assert_eq!(c.bots[1].wxid.as_deref(), Some("5"));
}

#[test]
fn upsert_keeps_alias_and_token() {
    let mut c = CliConfig::default();
    let mut b = bot("app", Some("w"), Some("nick"));
    b.token = Some("t".to_string());
    c.bots.push(b);
    upsert_bot(&mut c, "app", Some("w2".to_string()));
    assert_eq!(c.bots[0].alias.as_deref(), Some("nick"));
    assert_eq!(c.bots[0].token.as_deref(), Some("t"));
    assert_eq!(c.bots[0].wxid.as_deref(), Some("w2"));
}

#[test]
fn lookup_takes_the_first_bot_named() {
    let mut c = CliConfig::default();
    c.bots.push(bot("app1", Some("shared"), None));
    c.bots.push(bot("app2", None, Some("shared")));
    assert_eq!(lookup_bot(&c, "shared"), Some("app1".to_string()));
}

#[test]
fn alias_then_lookup_finds_the_bot() {
    let mut c = CliConfig::default();
    c.bots.push(bot("app1", Some("w1"), None));
    c.bots.push(bot("app2", Some("w2"), None));
    assert!(set_alias(&mut c, "w2", "second".to_string()));
    assert_eq!(lookup_bot(&c, "second"), Some("app2".to_string()));
    assert_eq!(c.bots[0].alias, None);
}

#[test]
fn set_alias_does_not_target_aliases() {
    let mut c = CliConfig::default();
    c.bots.push(bot("app1", None, Some("nick")));
    assert!(!set_alias(&mut c, "nick", "other".to_string()));
    assert_eq!(c.bots[0].alias.as_deref(), Some("nick"));
}

#[test]
fn resolve_bot_prefers_alias_over_explicit() {
    let mut c = CliConfig::default();
    c.bots.push(bot("app1", None, Some("nick")));
    let r = resolve_bot(Some("nick".to_string()), Some("explicit".to_string()), &c).unwrap();
    assert_eq!(r, Some("app1".to_string()));
}

#[test]
fn session_resolution_order() {
    let mut c = CliConfig::default();
    // token missing is reported first
    let e = resolve_session(None, None, None, Some("ghost".to_string()), None, &c).unwrap_err();
    assert_eq!(e.message(), "token required; set via flag or config command");
    c.token = Some("cfg-token".to_string());
    // then an unknown alias
    let e = resolve_session(None, None, None, Some("ghost".to_string()), None, &c).unwrap_err();
    assert_eq!(e.message(), "bot alias not found: ghost");
    // then a missing app id
    let e = resolve_session(None, None, None, None, None, &c).unwrap_err();
    assert_eq!(e.message(), "app_id required; set via flag or config command");
    c.app_id = Some("cfg-app".to_string());
    let s = resolve_session(None, None, None, None, None, &c).unwrap();
    assert_eq!((s.token.as_str(), s.base_url.as_str(), s.app_id.as_str()), ("cfg-token", "http://api.geweapi.com", "cfg-app"));
    // flags win; bot app id wins over app id
    let s = resolve_session(
        Some("flag-token".to_string()),
        Some("flag-app".to_string()),
        Some("bot-app".to_string()),
        None,
        Some("http://x".to_string()),
        &c,
    )
    .unwrap();
    assert_eq!((s.token.as_str(), s.base_url.as_str(), s.app_id.as_str()), ("flag-token", "http://x", "bot-app"));
}

#[test]
fn base_url_falls_back_to_configuration_then_default() {
    let mut c = CliConfig::default();
    assert_eq!(resolve_base_url(None, &c), "http://api.geweapi.com");
    c.base_url = Some("http://cfg".to_string());
    assert_eq!(resolve_base_url(None, &c), "http://cfg");
    assert_eq!(resolve_base_url(Some("http://flag".to_string()), &c), "http://flag");
}

#[test]
fn config_command_saves_when_a_setting_changes() {
    let mut c = CliConfig::default();
    let mut args = no_flags();
    args.token = Some("t".to_string());
    args.list_bots = true;
    let out = apply_config_args(args, &mut c);
    assert!(matches!(out.report, ConfigReport::Saved));
    assert_eq!(out.warning, None);
    assert_eq!(c.token.as_deref(), Some("t"));
}

#[test]
fn config_command_warns_about_alias_targets() {
    let mut c = CliConfig::default();
    let mut args = no_flags();
    args.alias = Some("nick".to_string());
    let out = apply_config_args(args, &mut c);
    assert_eq!(out.warning, Some(ConfigWarning::AliasTargetMissing));
    assert!(matches!(out.report, ConfigReport::Dump));

    let mut args = no_flags();
    args.alias = Some("nick".to_string());
    args.alias_target_wxid = Some("nobody".to_string());
    let out = apply_config_args(args, &mut c);
    assert_eq!(out.warning, Some(ConfigWarning::AliasTargetNotFound));

    c.bots.push(bot("app1", Some("w1"), None));
    let mut args = no_flags();
    args.alias = Some("nick".to_string());
    args.alias_target_wxid = Some("w1".to_string());
    let out = apply_config_args(args, &mut c);
    assert_eq!(out.warning, None);
    assert!(matches!(out.report, ConfigReport::Saved));
    assert_eq!(c.bots[0].alias.as_deref(), Some("nick"));
}

#[test]
fn config_command_lists_bots() {
    let mut c = CliConfig::default();
    let mut args = no_flags();
    args.list_bots = true;
    match apply_config_args(args, &mut c).report {
        ConfigReport::BotList(lines) => assert_eq!(lines, vec!["No bots stored".to_string()]),
        _ => panic!("expected a listing"),
    }
    c.bots.push(bot("app1", Some("w1"), Some("nick")));
    c.bots.push(bot("app2", None, None));
    assert_eq!(
        list_bots(&c),
        vec![
            "appId=app1 wxid=w1 alias=nick".to_string(),
            "appId=app2 wxid=<unknown> alias=<none>".to_string()
        ]
    );
}
