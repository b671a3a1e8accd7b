use gewe::cli::config::BotRecord;
use gewe::cli::config::CliConfig;
use gewe::cli::config::resolve_bot;
use gewe::cli::message::forward::ForwardFileArgs;
use gewe::cli::message::forward::ForwardImageArgs;
use gewe::cli::message::forward::ForwardMiniAppArgs;
use gewe::cli::message::forward::ForwardUrlArgs;
use gewe::cli::message::forward::ForwardVideoArgs;

#[test]
fn test_forward_image_args_structure() {
    let args = ForwardImageArgs {
        token: Some("test_token".to_string()),
        app_id: Some("test_app_id".to_string()),
        bot_app_id: None,
        bot_alias: None,
        to_wxid: "wxid123".to_string(),
        xml: "<img>...</img>".to_string(),
        base_url: None,
    };

    assert_eq!(args.to_wxid, "wxid123");
    assert_eq!(args.xml, "<img>...</img>");
    assert_eq!(args.token, Some("test_token".to_string()));
    assert_eq!(args.app_id, Some("test_app_id".to_string()));
}

#[test]
fn test_forward_image_args_with_custom_base_url() {
    let args = ForwardImageArgs {
        token: None,
        app_id: None,
        bot_app_id: None,
        bot_alias: None,
        to_wxid: "wxid456".to_string(),
        xml: "<img>...</img>".to_string(),
        base_url: Some("http://custom.api.com".to_string()),
    };

    assert_eq!(args.base_url, Some("http://custom.api.com".to_string()));
}

#[test]
fn test_forward_video_args_structure() {
    let args = ForwardVideoArgs {
        token: Some("token".to_string()),
        app_id: Some("app123".to_string()),
        bot_app_id: None,
        bot_alias: None,
        to_wxid: "wxid789".to_string(),
        xml: "<video>...</video>".to_string(),
        base_url: None,
    };

    assert_eq!(args.to_wxid, "wxid789");
    assert_eq!(args.xml, "<video>...</video>");
}

#[test]
fn test_forward_file_args_structure() {
    let args = ForwardFileArgs {
        token: None,
        app_id: None,
        bot_app_id: None,
        bot_alias: None,
        to_wxid: "wxid000".to_string(),
        xml: "<file>...</file>".to_string(),
        base_url: None,
    };

    assert_eq!(args.to_wxid, "wxid000");
    assert_eq!(args.xml, "<file>...</file>");
}

#[test]
fn test_forward_mini_app_args_structure() {
    let args = ForwardMiniAppArgs {
        token: None,
        app_id: None,
        bot_app_id: None,
        bot_alias: None,
        to_wxid: "wxid111".to_string(),
        xml: "<miniapp>...</miniapp>".to_string(),
        cover_img_url: "http://example.com/cover.jpg".to_string(),
        base_url: None,
    };

    assert_eq!(args.to_wxid, "wxid111");
    assert_eq!(args.xml, "<miniapp>...</miniapp>");
    assert_eq!(args.cover_img_url, "http://example.com/cover.jpg");
}

#[test]
fn test_forward_url_args_structure() {
    let args = ForwardUrlArgs {
        token: None,
        app_id: None,
        bot_app_id: None,
        bot_alias: None,
        to_wxid: "wxid222".to_string(),
        xml: "<url>...</url>".to_string(),
        base_url: None,
    };

    assert_eq!(args.to_wxid, "wxid222");
    assert_eq!(args.xml, "<url>...</url>");
}

#[test]
fn test_forward_image_args_with_bot_alias() {
    let args = ForwardImageArgs {
        token: None,
        app_id: None,
        bot_app_id: None,
        bot_alias: Some("fwd_bot".to_string()),
        to_wxid: "wxid333".to_string(),
        xml: "<img>...</img>".to_string(),
        base_url: None,
    };

    assert_eq!(args.bot_alias, Some("fwd_bot".to_string()));
}

#[test]
fn test_forward_video_args_with_bot_app_id() {
    let args = ForwardVideoArgs {
        token: None,
        app_id: None,
        bot_app_id: Some("app456".to_string()),
        bot_alias: None,
        to_wxid: "wxid444".to_string(),
        xml: "<video>...</video>".to_string(),
        base_url: None,
    };

    assert_eq!(args.bot_app_id, Some("app456".to_string()));
}

#[test]
fn test_forward_file_args_with_all_optional_fields() {
    let args = ForwardFileArgs {
        token: Some("token123".to_string()),
        app_id: Some("app123".to_string()),
        bot_app_id: Some("bot123".to_string()),
        bot_alias: Some("alias123".to_string()),
        to_wxid: "wxid555".to_string(),
        xml: "<file>test</file>".to_string(),
        base_url: Some("http://test.com".to_string()),
    };

    assert!(args.token.is_some());
    assert!(args.app_id.is_some());
    assert!(args.bot_app_id.is_some());
    assert!(args.bot_alias.is_some());
    assert!(args.base_url.is_some());
}

#[test]
fn test_forward_mini_app_args_with_empty_cover() {
    let args = ForwardMiniAppArgs {
        token: None,
        app_id: None,
        bot_app_id: None,
        bot_alias: None,
        to_wxid: "wxid666".to_string(),
        xml: "<miniapp>...</miniapp>".to_string(),
        cover_img_url: "".to_string(),
        base_url: None,
    };

    assert_eq!(args.cover_img_url, "");
}

#[test]
fn forward_test_resolve_bot_with_alias() {
    let mut config = CliConfig::default();
    config.bots.push(BotRecord {
        app_id: "app123".to_string(),
        wxid: Some("wxid123".to_string()),
        alias: Some("fwd_bot".to_string()),
        token: None,
        webhook_secret: None,
    });

    let result = resolve_bot(Some("fwd_bot".to_string()), None, &config).unwrap();
    assert_eq!(result, Some("app123".to_string()));
}

#[test]
fn forward_test_resolve_bot_with_explicit_app_id() {
    let config = CliConfig::default();
    let result = resolve_bot(None, Some("app789".to_string()), &config).unwrap();
    assert_eq!(result, Some("app789".to_string()));
}

#[test]
fn forward_test_resolve_bot_alias_not_found() {
    let config = CliConfig::default();
    let result = resolve_bot(Some("nonexistent".to_string()), None, &config);
    assert!(result.is_err());
    assert!(result
        .unwrap_err()
        .message()
        .contains("bot alias not found"));
}

#[test]
fn forward_test_resolve_bot_none() {
    let config = CliConfig::default();
    let result = resolve_bot(None, None, &config).unwrap();
    assert_eq!(result, None);
}

#[test]
fn test_forward_url_args_with_long_xml() {
    let long_xml = "<url>".to_string() + &"a".repeat(1000) + "</url>";
    let args = ForwardUrlArgs {
        token: None,
        app_id: None,
        bot_app_id: None,
        bot_alias: None,
        to_wxid: "wxid777".to_string(),
        xml: long_xml.clone(),
        base_url: None,
    };

    assert_eq!(args.xml, long_xml);
    assert!(args.xml.len() > 1000);
}

#[test]
fn test_forward_image_args_multiple_recipients() {
    let args1 = ForwardImageArgs {
        token: None,
        app_id: None,
        bot_app_id: None,
        bot_alias: None,
        to_wxid: "wxid1".to_string(),
        xml: "<img>...</img>".to_string(),
        base_url: None,
    };

    let args2 = ForwardImageArgs {
        token: None,
        app_id: None,
        bot_app_id: None,
        bot_alias: None,
        to_wxid: "wxid2".to_string(),
        xml: "<img>...</img>".to_string(),
        base_url: None,
    };

    assert_ne!(args1.to_wxid, args2.to_wxid);
    assert_eq!(args1.xml, args2.xml);
}
