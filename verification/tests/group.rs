use gewe::cli::config::BotRecord;
use gewe::cli::config::CliConfig;
use gewe::cli::config::resolve_bot;
use gewe::cli::group::AddGroupMemberAsFriendArgs;
use gewe::cli::group::AdminOperateArgs;
use gewe::cli::group::AgreeJoinRoomArgs;
use gewe::cli::group::CreateChatroomArgs;
use gewe::cli::group::DisbandChatroomArgs;
use gewe::cli::group::GetChatroomAnnouncementArgs;
use gewe::cli::group::GetChatroomInfoArgs;
use gewe::cli::group::GetChatroomMemberDetailArgs;
use gewe::cli::group::GetChatroomMemberListArgs;
use gewe::cli::group::GetChatroomQrCodeArgs;
use gewe::cli::group::InviteAddEnterRoomArgs;
use gewe::cli::group::InviteMemberArgs;
use gewe::cli::group::JoinRoomUsingQrCodeArgs;
use gewe::cli::group::ModifyChatroomNameArgs;
use gewe::cli::group::ModifyChatroomNickNameForSelfArgs;
use gewe::cli::group::ModifyChatroomRemarkArgs;
use gewe::cli::group::PinChatArgs;
use gewe::cli::group::QuitChatroomArgs;
use gewe::cli::group::RemoveMemberArgs;
use gewe::cli::group::RoomAccessApplyCheckApproveArgs;
use gewe::cli::group::SaveContractListArgs;
use gewe::cli::group::SetChatroomAnnouncementArgs;
use gewe::cli::group::SetMsgSilenceArgs;

#[test]
fn test_create_chatroom_args() {
    let args = CreateChatroomArgs {
        token: Some("test_token".to_string()),
        app_id: Some("test_app_id".to_string()),
        bot_app_id: None,
        bot_alias: None,
        wxids: vec![
            "wxid1".to_string(),
            "wxid2".to_string(),
            "wxid3".to_string(),
        ],
        base_url: None,
    };

    assert_eq!(args.wxids.len(), 3);
    assert_eq!(args.wxids[0], "wxid1");
}

#[test]
fn test_disband_chatroom_args() {
    let args = DisbandChatroomArgs {
        token: Some("test_token".to_string()),
        app_id: Some("test_app_id".to_string()),
        bot_app_id: None,
        bot_alias: None,
        chatroom_id: "chatroom_123@chatroom".to_string(),
        base_url: None,
    };

    assert_eq!(args.chatroom_id, "chatroom_123@chatroom");
}

#[test]
fn test_quit_chatroom_args() {
    let args = QuitChatroomArgs {
        token: Some("test_token".to_string()),
        app_id: Some("test_app_id".to_string()),
        bot_app_id: None,
        bot_alias: None,
        chatroom_id: "chatroom_456@chatroom".to_string(),
        base_url: None,
    };

    assert_eq!(args.chatroom_id, "chatroom_456@chatroom");
}

#[test]
fn test_modify_chatroom_name_args() {
    let args = ModifyChatroomNameArgs {
        token: Some("test_token".to_string()),
        app_id: Some("test_app_id".to_string()),
        bot_app_id: None,
        bot_alias: None,
        chatroom_name: "新群名称".to_string(),
        chatroom_id: "chatroom_789@chatroom".to_string(),
        base_url: None,
    };

    assert_eq!(args.chatroom_name, "新群名称");
    assert_eq!(args.chatroom_id, "chatroom_789@chatroom");
}

#[test]
fn test_modify_chatroom_remark_args() {
    let args = ModifyChatroomRemarkArgs {
        token: Some("test_token".to_string()),
        app_id: Some("test_app_id".to_string()),
        bot_app_id: None,
        bot_alias: None,
        chatroom_remark: "群备注".to_string(),
        chatroom_id: "chatroom_abc@chatroom".to_string(),
        base_url: None,
    };

    assert_eq!(args.chatroom_remark, "群备注");
}

#[test]
fn test_modify_chatroom_nick_name_for_self_args() {
    let args = ModifyChatroomNickNameForSelfArgs {
        token: Some("test_token".to_string()),
        app_id: Some("test_app_id".to_string()),
        bot_app_id: None,
        bot_alias: None,
        nick_name: "我的群昵称".to_string(),
        chatroom_id: "chatroom_xyz@chatroom".to_string(),
        base_url: None,
    };

    assert_eq!(args.nick_name, "我的群昵称");
}

#[test]
fn test_invite_member_args() {
    let args = InviteMemberArgs {
        token: Some("test_token".to_string()),
        app_id: Some("test_app_id".to_string()),
        bot_app_id: None,
        bot_alias: None,
        chatroom_id: "chatroom_invite@chatroom".to_string(),
        wxids: vec!["wxid_a".to_string(), "wxid_b".to_string()],
        reason: "邀请理由".to_string(),
        base_url: None,
    };

    assert_eq!(args.wxids.len(), 2);
    assert_eq!(args.reason, "邀请理由");
}

#[test]
fn test_remove_member_args() {
    let args = RemoveMemberArgs {
        token: Some("test_token".to_string()),
        app_id: Some("test_app_id".to_string()),
        bot_app_id: None,
        bot_alias: None,
        chatroom_id: "chatroom_remove@chatroom".to_string(),
        wxids: vec!["wxid_to_remove".to_string()],
        base_url: None,
    };

    assert_eq!(args.wxids.len(), 1);
    assert_eq!(args.wxids[0], "wxid_to_remove");
}

#[test]
fn test_join_room_using_qr_code_args() {
    let args = JoinRoomUsingQrCodeArgs {
        token: Some("test_token".to_string()),
        app_id: Some("test_app_id".to_string()),
        bot_app_id: None,
        bot_alias: None,
        qr_uuid: "qr_uuid_123".to_string(),
        chatroom_name: "群名称".to_string(),
        base_url: None,
    };

    assert_eq!(args.qr_uuid, "qr_uuid_123");
    assert_eq!(args.chatroom_name, "群名称");
}

#[test]
fn test_agree_join_room_args() {
    let args = AgreeJoinRoomArgs {
        token: Some("test_token".to_string()),
        app_id: Some("test_app_id".to_string()),
        bot_app_id: None,
        bot_alias: None,
        msg_id: "msg_123".to_string(),
        new_msg_id: "new_msg_456".to_string(),
        create_time: "1234567890".to_string(),
        from_username: "from_user".to_string(),
        to_username: "to_user".to_string(),
        base_url: None,
    };

    assert_eq!(args.msg_id, "msg_123");
    assert_eq!(args.new_msg_id, "new_msg_456");
    assert_eq!(args.create_time, "1234567890");
}

#[test]
fn test_room_access_apply_check_approve_args() {
    let args = RoomAccessApplyCheckApproveArgs {
        token: Some("test_token".to_string()),
        app_id: Some("test_app_id".to_string()),
        bot_app_id: None,
        bot_alias: None,
        chatroom_id: "chatroom_approve@chatroom".to_string(),
        wxid: "wxid_applicant".to_string(),
        ticket: "ticket_abc123".to_string(),
        base_url: None,
    };

    assert_eq!(args.wxid, "wxid_applicant");
    assert_eq!(args.ticket, "ticket_abc123");
}

#[test]
fn test_invite_add_enter_room_args() {
    let args = InviteAddEnterRoomArgs {
        token: Some("test_token".to_string()),
        app_id: Some("test_app_id".to_string()),
        bot_app_id: None,
        bot_alias: None,
        chatroom_id: "chatroom_exp@chatroom".to_string(),
        exp_id: "exp_123".to_string(),
        wxids: vec!["wxid1".to_string(), "wxid2".to_string()],
        base_url: None,
    };

    assert_eq!(args.exp_id, "exp_123");
    assert_eq!(args.wxids.len(), 2);
}

#[test]
fn test_add_group_member_as_friend_args() {
    let args = AddGroupMemberAsFriendArgs {
        token: Some("test_token".to_string()),
        app_id: Some("test_app_id".to_string()),
        bot_app_id: None,
        bot_alias: None,
        chatroom_id: "chatroom_friend@chatroom".to_string(),
        wxid: "wxid_target".to_string(),
        content: "添加好友验证消息".to_string(),
        base_url: None,
    };

    assert_eq!(args.wxid, "wxid_target");
    assert_eq!(args.content, "添加好友验证消息");
}

#[test]
fn test_get_chatroom_member_list_args() {
    let args = GetChatroomMemberListArgs {
        token: Some("test_token".to_string()),
        app_id: Some("test_app_id".to_string()),
        bot_app_id: None,
        bot_alias: None,
        chatroom_id: "chatroom_members@chatroom".to_string(),
        base_url: None,
    };

    assert_eq!(args.chatroom_id, "chatroom_members@chatroom");
}

#[test]
fn test_get_chatroom_member_detail_args() {
    let args = GetChatroomMemberDetailArgs {
        token: Some("test_token".to_string()),
        app_id: Some("test_app_id".to_string()),
        bot_app_id: None,
        bot_alias: None,
        chatroom_id: "chatroom_detail@chatroom".to_string(),
        wxid: "wxid_member".to_string(),
        base_url: None,
    };

    assert_eq!(args.chatroom_id, "chatroom_detail@chatroom");
    assert_eq!(args.wxid, "wxid_member");
}

#[test]
fn test_get_chatroom_info_args() {
    let args = GetChatroomInfoArgs {
        token: Some("test_token".to_string()),
        app_id: Some("test_app_id".to_string()),
        bot_app_id: None,
        bot_alias: None,
        chatroom_id: "chatroom_info@chatroom".to_string(),
        base_url: None,
    };

    assert_eq!(args.chatroom_id, "chatroom_info@chatroom");
}

#[test]
fn test_get_chatroom_announcement_args() {
    let args = GetChatroomAnnouncementArgs {
        token: Some("test_token".to_string()),
        app_id: Some("test_app_id".to_string()),
        bot_app_id: None,
        bot_alias: None,
        chatroom_id: "chatroom_announcement@chatroom".to_string(),
        type_: 1,
        base_url: None,
    };

    assert_eq!(args.type_, 1);
}

#[test]
fn test_set_chatroom_announcement_args() {
    let args = SetChatroomAnnouncementArgs {
        token: Some("test_token".to_string()),
        app_id: Some("test_app_id".to_string()),
        bot_app_id: None,
        bot_alias: None,
        chatroom_id: "chatroom_set_ann@chatroom".to_string(),
        content: "新的群公告内容".to_string(),
        base_url: None,
    };

    assert_eq!(args.content, "新的群公告内容");
}

#[test]
fn test_get_chatroom_qr_code_args() {
    let args = GetChatroomQrCodeArgs {
        token: Some("test_token".to_string()),
        app_id: Some("test_app_id".to_string()),
        bot_app_id: None,
        bot_alias: None,
        chatroom_id: "chatroom_qr@chatroom".to_string(),
        base_url: None,
    };

    assert_eq!(args.chatroom_id, "chatroom_qr@chatroom");
}

#[test]
fn test_save_contract_list_args() {
    let args = SaveContractListArgs {
        token: Some("test_token".to_string()),
        app_id: Some("test_app_id".to_string()),
        bot_app_id: None,
        bot_alias: None,
        chatroom_id: "chatroom_save@chatroom".to_string(),
        save: true,
        base_url: None,
    };

    assert!(args.save);
}

#[test]
fn test_pin_chat_args() {
    let args = PinChatArgs {
        token: Some("test_token".to_string()),
        app_id: Some("test_app_id".to_string()),
        bot_app_id: None,
        bot_alias: None,
        chatroom_id: "chatroom_pin@chatroom".to_string(),
        add: true,
        base_url: None,
    };

    assert!(args.add);
}

#[test]
fn test_set_msg_silence_args() {
    let args = SetMsgSilenceArgs {
        token: Some("test_token".to_string()),
        app_id: Some("test_app_id".to_string()),
        bot_app_id: None,
        bot_alias: None,
        chatroom_id: "chatroom_silence@chatroom".to_string(),
        switch_: true,
        base_url: None,
    };

    assert!(args.switch_);
}

#[test]
fn test_admin_operate_args() {
    let args = AdminOperateArgs {
        token: Some("test_token".to_string()),
        app_id: Some("test_app_id".to_string()),
        bot_app_id: None,
        bot_alias: None,
        chatroom_id: "chatroom_admin@chatroom".to_string(),
        wxid: "wxid_new_admin".to_string(),
        is_admin: true,
        base_url: None,
    };

    assert_eq!(args.wxid, "wxid_new_admin");
    assert!(args.is_admin);
}

#[test]
fn group_test_resolve_bot_with_explicit() {
    let config = CliConfig::default();
    let result = resolve_bot(None, Some("explicit_app_id".to_string()), &config).unwrap();

    assert_eq!(result, Some("explicit_app_id".to_string()));
}

#[test]
fn group_test_resolve_bot_with_alias_found() {
    let mut config = CliConfig::default();
    config.bots.push(BotRecord {
        app_id: "app123".to_string(),
        wxid: Some("wxid123".to_string()),
        alias: Some("my_bot".to_string()),
        token: None,
        webhook_secret: None,
    });

    let result = resolve_bot(Some("my_bot".to_string()), None, &config).unwrap();

    assert_eq!(result, Some("app123".to_string()));
}

#[test]
fn group_test_resolve_bot_with_alias_not_found() {
    let config = CliConfig::default();
    let result = resolve_bot(Some("nonexistent".to_string()), None, &config);

    assert!(result.is_err());
    assert!(result
        .unwrap_err()
        .message()
        .contains("bot alias not found"));
}

#[test]
fn group_test_resolve_bot_none() {
    let config = CliConfig::default();
    let result = resolve_bot(None, None, &config).unwrap();

    assert!(result.is_none());
}

#[test]
fn test_create_chatroom_args_empty_wxids() {
    let args = CreateChatroomArgs {
        token: Some("test_token".to_string()),
        app_id: Some("test_app_id".to_string()),
        bot_app_id: None,
        bot_alias: None,
        wxids: vec![],
        base_url: None,
    };

    assert!(args.wxids.is_empty());
}

#[test]
fn test_invite_member_args_single_member() {
    let args = InviteMemberArgs {
        token: Some("test_token".to_string()),
        app_id: Some("test_app_id".to_string()),
        bot_app_id: None,
        bot_alias: None,
        chatroom_id: "chatroom@chatroom".to_string(),
        wxids: vec!["single_wxid".to_string()],
        reason: "reason".to_string(),
        base_url: None,
    };

    assert_eq!(args.wxids.len(), 1);
}

#[test]
fn group_test_args_with_bot_alias() {
    let args = CreateChatroomArgs {
        token: Some("test_token".to_string()),
        app_id: None,
        bot_app_id: None,
        bot_alias: Some("bot_alias".to_string()),
        wxids: vec!["wxid1".to_string()],
        base_url: None,
    };

    assert_eq!(args.bot_alias, Some("bot_alias".to_string()));
}

#[test]
fn group_test_args_with_bot_app_id() {
    let args = DisbandChatroomArgs {
        token: Some("test_token".to_string()),
        app_id: None,
        bot_app_id: Some("bot_app_456".to_string()),
        bot_alias: None,
        chatroom_id: "chatroom@chatroom".to_string(),
        base_url: None,
    };

    assert_eq!(args.bot_app_id, Some("bot_app_456".to_string()));
}

#[test]
fn test_save_contract_list_args_false() {
    let args = SaveContractListArgs {
        token: Some("test_token".to_string()),
        app_id: Some("test_app_id".to_string()),
        bot_app_id: None,
        bot_alias: None,
        chatroom_id: "chatroom@chatroom".to_string(),
        save: false,
        base_url: None,
    };

    assert!(!args.save);
}

#[test]
fn test_pin_chat_args_remove() {
    let args = PinChatArgs {
        token: Some("test_token".to_string()),
        app_id: Some("test_app_id".to_string()),
        bot_app_id: None,
        bot_alias: None,
        chatroom_id: "chatroom@chatroom".to_string(),
        add: false,
        base_url: None,
    };

    assert!(!args.add);
}

#[test]
fn test_admin_operate_args_revoke_admin() {
    let args = AdminOperateArgs {
        token: Some("test_token".to_string()),
        app_id: Some("test_app_id".to_string()),
        bot_app_id: None,
        bot_alias: None,
        chatroom_id: "chatroom@chatroom".to_string(),
        wxid: "wxid_admin".to_string(),
        is_admin: false,
        base_url: None,
    };

    assert!(!args.is_admin);
}
