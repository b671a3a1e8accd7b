use gewe::cli::config::{BotRecord, CliConfig};
use gewe::cli::wait_reply::{
    awaited_wxid, bot_context_for, extract_group_sender_and_content, on_broadcast, on_event,
    parse_messages, parse_port, read_budget, send_target, socket_path, text_output, BroadcastMessage,
    ExitStatus, IncomingEvent, OutputFormat, ReadBudget, ReceivedReply, SubscriberStep, WaitReplyArgs,
    WaitReplyMessage, WaitReplyState,
};

fn event(kind: &str, msg_type: i64, from: &str, content: &str) -> IncomingEvent {
    IncomingEvent {
        event_type: Some(kind.to_string()),
        msg_type: Some(msg_type),
        from_user_name: Some(from.to_string()),
        content: Some(content.to_string()),
    }
}

fn reply(from: &str, group: Option<&str>, content: &str) -> ReceivedReply {
    ReceivedReply {
        from_wxid: from.to_string(),
        group_wxid: group.map(|g| g.to_string()),
        content: content.to_string(),
        timestamp: 0,
    }
}

fn args() -> WaitReplyArgs {
    WaitReplyArgs {
        to_wxid: "wxid_to".to_string(),
        listen: "0.0.0.0:4399".to_string(),
        group_wxid: None,
        filter_wxid: None,
        match_: None,
        timeout: None,
        output_format: OutputFormat::Text,
        message: vec![],
        token: None,
        app_id: None,
        bot_app_id: None,
        bot_alias: None,
        base_url: None,
    }
}

#[test]
fn message_types_are_case_insensitive() {
    match WaitReplyMessage::parse("TeXt:Hi").unwrap() {
        WaitReplyMessage::Text(c) => assert_eq!(c, "Hi"),
        _ => panic!("expected text"),
    }
    match WaitReplyMessage::parse("VIDEO:http://v").unwrap() {
        WaitReplyMessage::Video(c) => assert_eq!(c, "http://v"),
        _ => panic!("expected video"),
    }
    match WaitReplyMessage::parse("voice:http://a").unwrap() {
        WaitReplyMessage::Voice(c) => assert_eq!(c, "http://a"),
        _ => panic!("expected voice"),
    }
    // the Kelvin sign lower-cases to `k`
    assert!(matches!(WaitReplyMessage::parse("lin\u{212A}:a|b|c|d").unwrap(), WaitReplyMessage::Link { .. }));
}

#[test]
fn text_content_keeps_later_colons() {
    match WaitReplyMessage::parse("text:a:b:c").unwrap() {
        WaitReplyMessage::Text(c) => assert_eq!(c, "a:b:c"),
        _ => panic!("expected text"),
    }
    match WaitReplyMessage::parse("text:").unwrap() {
        WaitReplyMessage::Text(c) => assert_eq!(c, ""),
        _ => panic!("expected text"),
    }
}

#[test]
fn message_errors_name_the_problem() {
    assert_eq!(WaitReplyMessage::parse("nocolon").unwrap_err().message(), "消息格式错误，应为 TYPE:CONTENT");
    assert_eq!(
        WaitReplyMessage::parse("file:x").unwrap_err().message(),
        "未知消息类型: file，支持 text/image/voice/video/link"
    );
    assert_eq!(
        WaitReplyMessage::parse("link:a|b|c|d|e").unwrap_err().message(),
        "链接消息格式错误，应为 link:标题|描述|URL|缩略图URL"
    );
}

#[test]
fn parse_messages_stops_at_first_bad_one() {
    let ok = parse_messages(&vec!["text:a".to_string(), "image:b".to_string()]).unwrap();
    assert_eq!(ok.len(), 2);
    let e = parse_messages(&vec!["text:a".to_string(), "bad".to_string(), "x:y".to_string()]).unwrap_err();
    assert_eq!(e.message(), "消息格式错误，应为 TYPE:CONTENT");
}

#[test]
fn output_format_error_text() {
    assert_eq!(OutputFormat::parse_name("xml").unwrap_err(), "无效的输出格式: xml，支持 text 或 json");
    assert_eq!(OutputFormat::parse_name("Json"), Ok(OutputFormat::Json));
}

#[test]
fn port_round_trip() {
    for p in [0u16, 1, 80, 4399, 65535] {
        assert_eq!(parse_port(&format!("[::1]:{}", p)).unwrap(), p);
        assert_eq!(socket_path(p), format!("/tmp/gewe-wait-reply-{}.sock", p));
    }
    assert_eq!(parse_port("8080").unwrap(), 8080);
    assert!(parse_port("host:65536").is_err());
    assert!(parse_port("host:").is_err());
    assert_eq!(parse_port("host:x").unwrap_err().message(), "无效的端口号");
}

#[test]
fn group_message_round_trip_and_trimming() {
    let (s, c) = extract_group_sender_and_content("  wxid_a :\nline1\nline2").unwrap();
    assert_eq!((s.as_str(), c.as_str()), ("wxid_a", "line1\nline2"));
    assert!(extract_group_sender_and_content(":\nno sender").is_none());
    // an empty sender before `:\n` falls back to the `:\r\n` form
    let (s, c) = extract_group_sender_and_content(":\n x:\r\nhello").unwrap();
    assert_eq!((s.as_str(), c.as_str()), (":\n x", "hello"));
}

#[test]
fn invalid_pattern_is_refused() {
    let e = WaitReplyState::new("w".to_string(), None, Some("(")).err().unwrap();
    assert_eq!(e.message(), regex::Regex::new("(").unwrap_err().to_string());
    let st = WaitReplyState::new("w".to_string(), None, Some("")).unwrap();
    assert!(!st.has_pattern());
}

#[test]
fn pattern_decides_the_match() {
    let mut st = WaitReplyState::new("w".to_string(), None, Some("^ok$")).unwrap();
    assert!(!st.handle_message(reply("w", None, "ok then")));
    assert!(!st.matched());
    assert!(st.handle_message(reply("w", None, "ok")));
    assert!(st.matched());
    assert!(!st.handle_message(reply("w", None, "nope")));
    assert!(st.matched());
    assert_eq!(st.received().len(), 3);
}

#[test]
fn private_wait_accepts_only_the_awaited_sender() {
    let st = WaitReplyState::new("wxid_a".to_string(), None, None).unwrap();
    let r = st.should_accept(&event("AddMsg", 1, "wxid_a", "hi"), 42).unwrap();
    assert_eq!((r.from_wxid.as_str(), r.content.as_str(), r.timestamp), ("wxid_a", "hi", 42));
    assert!(r.group_wxid.is_none());
    assert!(st.should_accept(&event("AddMsg", 1, "wxid_b", "hi"), 0).is_none());
    assert!(st.should_accept(&event("AddMsg", 3, "wxid_a", "hi"), 0).is_none());
    assert!(st.should_accept(&event("ModContacts", 1, "wxid_a", "hi"), 0).is_none());
    assert!(st.should_accept(&event("AddMsg", 1, "room@chatroom", "wxid_a:\nhi"), 0).is_none());
    let mut partial = event("AddMsg", 1, "wxid_a", "hi");
    partial.content = None;
    assert!(st.should_accept(&partial, 0).is_none());
}

#[test]
fn group_wait_reads_the_sender_from_the_content() {
    let st = WaitReplyState::new("wxid_a".to_string(), Some("room@chatroom".to_string()), None).unwrap();
    let r = st.should_accept(&event("AddMsg", 1, "room@chatroom", "wxid_a:\n好的"), 7).unwrap();
    assert_eq!(r.from_wxid, "wxid_a");
    assert_eq!(r.group_wxid.as_deref(), Some("room@chatroom"));
    assert_eq!(r.content, "好的");
    assert!(st.should_accept(&event("AddMsg", 1, "room@chatroom", "wxid_b:\n好的"), 7).is_none());
    assert!(st.should_accept(&event("AddMsg", 1, "other@chatroom", "wxid_a:\n好的"), 7).is_none());
    assert!(st.should_accept(&event("AddMsg", 1, "wxid_a", "好的"), 7).is_none());
    // what the primary relays, a subscriber for the same wait accepts
    assert!(st.should_accept_reply(&r));
}

#[test]
fn primary_and_subscriber_steps() {
    let mut st = WaitReplyState::new("wxid_a".to_string(), None, Some("yes")).unwrap();
    let (relay, done) = on_event(&mut st, &event("AddMsg", 1, "wxid_a", "no"), 1);
    assert_eq!(relay.unwrap().content, "no");
    assert!(!done);
    let (relay, done) = on_event(&mut st, &event("AddMsg", 1, "wxid_z", "yes"), 2);
    assert!(relay.is_none() && !done);
    assert_eq!(st.received().len(), 1);

    let mut sub = WaitReplyState::new("wxid_a".to_string(), None, Some("yes")).unwrap();
    assert_eq!(on_broadcast(&mut sub, BroadcastMessage::Message { data: reply("wxid_z", None, "yes") }), SubscriberStep::Continue);
    assert_eq!(on_broadcast(&mut sub, BroadcastMessage::Message { data: reply("wxid_a", None, "no") }), SubscriberStep::Continue);
    assert_eq!(on_broadcast(&mut sub, BroadcastMessage::Message { data: reply("wxid_a", None, "yes!") }), SubscriberStep::Done);
    assert_eq!(on_broadcast(&mut sub, BroadcastMessage::Shutdown { reason: "primary_exit".to_string() }), SubscriberStep::Reconnect);
    assert_eq!(sub.received().len(), 2);
}

#[test]
fn targets_and_outputs() {
    let mut a = args();
    assert_eq!(awaited_wxid(&a), "wxid_to");
    assert_eq!(send_target(&a), "wxid_to");
    a.filter_wxid = Some("wxid_f".to_string());
    a.group_wxid = Some("room@chatroom".to_string());
    assert_eq!(awaited_wxid(&a), "wxid_f");
    assert_eq!(send_target(&a), "room@chatroom");
    let lines = text_output(&vec![reply("a", None, "one"), reply("b", None, "two")]);
    assert_eq!(lines, vec!["one".to_string(), "two".to_string()]);
    assert_eq!(ExitStatus::Success.code(), 0);
    assert_eq!(ExitStatus::Timeout.code(), 1);
    assert_eq!(ExitStatus::SendFailed.code(), 2);
    assert_eq!(ExitStatus::WebhookFailed.code(), 3);
}

#[test]
fn registered_context_uses_the_configured_bot() {
    let mut c = CliConfig::default();
    c.bots.push(BotRecord {
        app_id: "app1".to_string(),
        wxid: None,
        alias: Some("nick".to_string()),
        token: None,
        webhook_secret: Some("s3".to_string()),
    });
    let ctx = bot_context_for(&c, "app1", "tok");
    assert_eq!(ctx.app_id.0, "app1");
    assert_eq!(ctx.token, "tok");
    assert_eq!(ctx.webhook_secret.as_deref(), Some("s3"));
    assert_eq!(ctx.description.as_deref(), Some("nick"));
    let ctx = bot_context_for(&c, "other", "tok");
    assert!(ctx.webhook_secret.is_none() && ctx.description.is_none());
}

#[test]
fn subscriber_read_budget() {
    assert_eq!(read_budget(0, None), ReadBudget::Wait(None));
    assert_eq!(read_budget(10_000_000, None), ReadBudget::Wait(None));
    assert_eq!(read_budget(1_500, Some(2)), ReadBudget::Wait(Some(500)));
    assert_eq!(read_budget(2_000, Some(2)), ReadBudget::TimedOut);
    assert_eq!(read_budget(2_001, Some(2)), ReadBudget::TimedOut);
    assert_eq!(read_budget(0, Some(0)), ReadBudget::TimedOut);
    assert_eq!(
        read_budget(0, Some(u64::MAX)),
        ReadBudget::Wait(Some(u64::MAX as u128 * 1000))
    );
}
