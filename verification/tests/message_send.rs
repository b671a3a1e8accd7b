use gewe::cli::config::BotRecord;
use gewe::cli::config::CliConfig;
use gewe::cli::config::resolve_bot;
use gewe::cli::message::send::SendAppmsgArgs;
use gewe::cli::message::send::SendEmojiArgs;
use gewe::cli::message::send::SendFileArgs;
use gewe::cli::message::send::SendImageArgs;
use gewe::cli::message::send::SendLinkArgs;
use gewe::cli::message::send::SendMiniAppArgs;
use gewe::cli::message::send::SendNameCardArgs;
use gewe::cli::message::send::SendTextArgs;
use gewe::cli::message::send::SendVideoArgs;
use gewe::cli::message::send::SendVoiceArgs;

#[test]
fn test_send_text_args_has_required_fields() {
    let args = SendTextArgs {
        token: Some("test_token".to_string()),
        app_id: Some("test_app_id".to_string()),
        bot_app_id: None,
        bot_alias: None,
        to_wxid: "wxid123".to_string(),
        content: "Hello".to_string(),
        ats: None,
        base_url: None,
    };

    assert_eq!(args.to_wxid, "wxid123");
    assert_eq!(args.content, "Hello");
    assert_eq!(args.token, Some("test_token".to_string()));
    assert_eq!(args.app_id, Some("test_app_id".to_string()));
}

#[test]
fn test_send_text_args_with_ats() {
    let args = SendTextArgs {
        token: None,
        app_id: None,
        bot_app_id: None,
        bot_alias: None,
        to_wxid: "chatroom@123".to_string(),
        content: "@user test".to_string(),
        ats: Some("wxid_user1,wxid_user2".to_string()),
        base_url: None,
    };

    assert_eq!(args.ats, Some("wxid_user1,wxid_user2".to_string()));
}

#[test]
fn test_send_image_args_structure() {
    let args = SendImageArgs {
        token: Some("token".to_string()),
        app_id: Some("app123".to_string()),
        bot_app_id: None,
        bot_alias: None,
        to_wxid: "wxid456".to_string(),
        img_url: "http://example.com/image.jpg".to_string(),
        base_url: Some("http://custom.api.com".to_string()),
    };

    assert_eq!(args.img_url, "http://example.com/image.jpg");
    assert_eq!(args.base_url, Some("http://custom.api.com".to_string()));
}

#[test]
fn test_send_voice_args_with_duration() {
    let args = SendVoiceArgs {
        token: None,
        app_id: None,
        bot_app_id: None,
        bot_alias: None,
        to_wxid: "wxid789".to_string(),
        voice_url: "http://example.com/voice.mp3".to_string(),
        voice_duration: 10,
        base_url: None,
    };

    assert_eq!(args.voice_duration, 10);
    assert_eq!(args.voice_url, "http://example.com/voice.mp3");
}

#[test]
fn test_send_video_args_with_thumb() {
    let args = SendVideoArgs {
        token: None,
        app_id: None,
        bot_app_id: None,
        bot_alias: None,
        to_wxid: "wxid000".to_string(),
        video_url: "http://example.com/video.mp4".to_string(),
        thumb_url: "http://example.com/thumb.jpg".to_string(),
        video_duration: 30,
        base_url: None,
    };

    assert_eq!(args.video_url, "http://example.com/video.mp4");
    assert_eq!(args.thumb_url, "http://example.com/thumb.jpg");
    assert_eq!(args.video_duration, 30);
}

#[test]
fn test_send_file_args_structure() {
    let args = SendFileArgs {
        token: None,
        app_id: None,
        bot_app_id: None,
        bot_alias: None,
        to_wxid: "wxid111".to_string(),
        file_url: "http://example.com/file.pdf".to_string(),
        file_name: "document.pdf".to_string(),
        base_url: None,
    };

    assert_eq!(args.file_url, "http://example.com/file.pdf");
    assert_eq!(args.file_name, "document.pdf");
}

#[test]
fn test_send_link_args_structure() {
    let args = SendLinkArgs {
        token: None,
        app_id: None,
        bot_app_id: None,
        bot_alias: None,
        to_wxid: "wxid222".to_string(),
        title: "Link Title".to_string(),
        desc: "Link Description".to_string(),
        link_url: "http://example.com".to_string(),
        thumb_url: "http://example.com/thumb.jpg".to_string(),
        base_url: None,
    };

    assert_eq!(args.title, "Link Title");
    assert_eq!(args.desc, "Link Description");
    assert_eq!(args.link_url, "http://example.com");
    assert_eq!(args.thumb_url, "http://example.com/thumb.jpg");
}

#[test]
fn test_send_emoji_args_structure() {
    let args = SendEmojiArgs {
        token: None,
        app_id: None,
        bot_app_id: None,
        bot_alias: None,
        to_wxid: "wxid333".to_string(),
        emoji_md5: "abc123def456".to_string(),
        emoji_size: 1024,
        base_url: None,
    };

    assert_eq!(args.emoji_md5, "abc123def456");
    assert_eq!(args.emoji_size, 1024);
}

#[test]
fn test_send_appmsg_args_structure() {
    let args = SendAppmsgArgs {
        token: None,
        app_id: None,
        bot_app_id: None,
        bot_alias: None,
        to_wxid: "wxid444".to_string(),
        appmsg: "<xml>...</xml>".to_string(),
        base_url: None,
    };

    assert_eq!(args.appmsg, "<xml>...</xml>");
}

#[test]
fn test_send_mini_app_args_structure() {
    let args = SendMiniAppArgs {
        token: None,
        app_id: None,
        bot_app_id: None,
        bot_alias: None,
        to_wxid: "wxid555".to_string(),
        mini_app_id: "mini123".to_string(),
        display_name: "Mini App".to_string(),
        page_path: "pages/index".to_string(),
        cover_img_url: "http://example.com/cover.jpg".to_string(),
        title: "App Title".to_string(),
        user_name: "username".to_string(),
        base_url: None,
    };

    assert_eq!(args.mini_app_id, "mini123");
    assert_eq!(args.display_name, "Mini App");
    assert_eq!(args.page_path, "pages/index");
    assert_eq!(args.title, "App Title");
    assert_eq!(args.user_name, "username");
}

#[test]
fn test_send_name_card_args_structure() {
    let args = SendNameCardArgs {
        token: None,
        app_id: None,
        bot_app_id: None,
        bot_alias: None,
        to_wxid: "wxid666".to_string(),
        nick_name: "Nick Name".to_string(),
        name_card_wxid: "wxid_card".to_string(),
        base_url: None,
    };

    assert_eq!(args.nick_name, "Nick Name");
    assert_eq!(args.name_card_wxid, "wxid_card");
}

#[test]
fn send_test_resolve_bot_with_alias() {
    let mut config = CliConfig::default();
    config.bots.push(BotRecord {
        app_id: "app123".to_string(),
        wxid: Some("wxid123".to_string()),
        alias: Some("my_bot".to_string()),
        token: None,
        webhook_secret: None,
    });

    let result = resolve_bot(Some("my_bot".to_string()), None, &config).unwrap();
    assert_eq!(result, Some("app123".to_string()));
}

#[test]
fn send_test_resolve_bot_with_explicit_app_id() {
    let config = CliConfig::default();
    let result = resolve_bot(None, Some("app456".to_string()), &config).unwrap();
    assert_eq!(result, Some("app456".to_string()));
}

#[test]
fn send_test_resolve_bot_alias_not_found() {
    let config = CliConfig::default();
    let result = resolve_bot(Some("unknown".to_string()), None, &config);
    assert!(result.is_err());
    assert!(result
        .unwrap_err()
        .message()
        .contains("bot alias not found"));
}

#[test]
fn send_test_resolve_bot_with_both_alias_and_explicit() {
    let mut config = CliConfig::default();
    config.bots.push(BotRecord {
        app_id: "app123".to_string(),
        wxid: Some("wxid123".to_string()),
        alias: Some("my_bot".to_string()),
        token: None,
        webhook_secret: None,
    });

    // 当同时提供 alias 和 explicit 时，优先使用 alias
    let result = resolve_bot(
        Some("my_bot".to_string()),
        Some("app456".to_string()),
        &config,
    )
    .unwrap();
    assert_eq!(result, Some("app123".to_string()));
}

#[test]
fn send_test_resolve_bot_none() {
    let config = CliConfig::default();
    let result = resolve_bot(None, None, &config).unwrap();
    assert_eq!(result, None);
}

#[test]
fn test_send_text_args_with_bot_alias() {
    let args = SendTextArgs {
        token: None,
        app_id: None,
        bot_app_id: None,
        bot_alias: Some("my_bot".to_string()),
        to_wxid: "wxid123".to_string(),
        content: "Hello".to_string(),
        ats: None,
        base_url: None,
    };

    assert_eq!(args.bot_alias, Some("my_bot".to_string()));
}

#[test]
fn test_send_text_args_with_bot_app_id() {
    let args = SendTextArgs {
        token: None,
        app_id: None,
        bot_app_id: Some("app789".to_string()),
        bot_alias: None,
        to_wxid: "wxid123".to_string(),
        content: "Hello".to_string(),
        ats: None,
        base_url: None,
    };

    assert_eq!(args.bot_app_id, Some("app789".to_string()));
}

#[test]
fn test_send_image_args_with_bot_alias() {
    let args = SendImageArgs {
        token: None,
        app_id: None,
        bot_app_id: None,
        bot_alias: Some("img_bot".to_string()),
        to_wxid: "wxid456".to_string(),
        img_url: "http://example.com/image.jpg".to_string(),
        base_url: None,
    };

    assert_eq!(args.bot_alias, Some("img_bot".to_string()));
}
