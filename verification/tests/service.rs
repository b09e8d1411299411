use telega_checker::api_server::{
    handle_check, read_header, validate_bearer, CheckResponse, EndpointStep, CHECK_ROUTE,
};
use telega_checker::bot_handler::{ChatKind, Outcome, User};
use telega_checker::db::Param;
use telega_checker::dispatch::{route, AdminCommand, Incoming, Route, UserCommand};
use telega_checker::scheduler::{
    run_scan, scan_chat, ChatScanStep, ScanStep, SendReport, Sending, DAILY_SCAN_SCHEDULE,
    MAX_CONCURRENT_CHECKS,
};

fn header(text: &str) -> Option<Vec<u8>> {
    Some(text.as_bytes().to_vec())
}

#[test]
fn headers_are_visible_ascii() {
    assert_eq!(read_header(&b"Bearer x\t~".to_vec()).as_deref(), Some("Bearer x\t~"));
    assert_eq!(read_header(&vec![]).as_deref(), Some(""));
    for byte in 0..=255u8 {
        let visible = (32..127).contains(&byte) || byte == b'\t';
        assert_eq!(read_header(&vec![b'a', byte]).is_some(), visible, "{}", byte);
        if let Ok(value) = axum::http::HeaderValue::from_bytes(&[byte]) {
            assert_eq!(value.to_str().is_ok(), visible, "{}", byte);
        }
    }
}

#[test]
fn only_the_bearer_token_authorizes() {
    assert!(validate_bearer(&header("Bearer secret"), "secret").is_ok());
    let cases = vec![
        (None, "Missing Authorization header"),
        (header("Bearer sécret"), "Missing Authorization header"),
        (header("secret"), "Invalid Authorization format. Expected: Bearer <token>"),
        (header("bearer secret"), "Invalid Authorization format. Expected: Bearer <token>"),
        (header("Bearer"), "Invalid Authorization format. Expected: Bearer <token>"),
        (header("Bearer "), "Invalid bearer token"),
        (header("Bearer  secret"), "Invalid bearer token"),
        (header("Bearer secret "), "Invalid bearer token"),
        (header("Bearer Secret"), "Invalid bearer token"),
    ];
    for (header, error) in cases {
        let refusal = validate_bearer(&header, "secret").unwrap_err();
        assert_eq!(refusal.status, 401);
        assert_eq!(refusal.error, error);
    }
    assert!(validate_bearer(&header("Bearer sécret"), "sécret").is_err());
    assert!(validate_bearer(&header("Bearer "), "").is_ok());
}

#[test]
fn the_token_is_examined_before_the_path() {
    for path in ["5", "abc"] {
        match handle_check(&header("Bearer no"), "secret", path.to_string()) {
            EndpointStep::Respond(Err(e)) => assert_eq!(e.status, 401),
            other => panic!("{:?}", other),
        }
    }
}

#[test]
fn paths_hold_positive_ids() {
    for path in ["", "abc", "0", "-5", " 5", "9223372036854775808"] {
        match handle_check(&header("Bearer secret"), "secret", path.to_string()) {
            EndpointStep::Respond(Err(e)) => {
                assert_eq!(e.status, 400);
                assert_eq!(
                    e.error,
                    format!("Invalid telegram_id '{}'. Must be a positive integer.", path)
                );
            }
            other => panic!("{:?}", other),
        }
    }
}

#[test]
fn lookups_are_answered() {
    let look = || match handle_check(&header("Bearer secret"), "secret", "123".to_string()) {
        EndpointStep::LookUp(s) => s,
        other => panic!("{:?}", other),
    };
    assert_eq!(look().telegram_id, 123);
    for found in [true, false] {
        match look().resume::<String>(&Ok(found)) {
            EndpointStep::Respond(Ok(response)) => assert_eq!(
                response,
                CheckResponse { telegram_id: 123, is_compromised: found }
            ),
            other => panic!("{:?}", other),
        }
    }
    match look().resume(&Err("secret detail".to_string())) {
        EndpointStep::Respond(Err(e)) => {
            assert_eq!(e.status, 500);
            assert_eq!(e.error, "Internal lookup error. Please try again later.");
        }
        other => panic!("{:?}", other),
    }
    assert_eq!(CHECK_ROUTE, "/api/check/{telegram_id}");
}

fn plain(chat: ChatKind, text: Option<&str>) -> Incoming<String> {
    Incoming {
        user_command: None,
        admin_command: None,
        from: Some(User { id: 7, is_bot: false }),
        members_joined: false,
        member_left: false,
        chat,
        text: text.map(|t| t.to_string()),
    }
}

#[test]
fn messages_go_to_the_first_handler_that_wants_them() {
    let mut message = plain(ChatKind::Group, Some("@bot 5"));
    message.user_command = Some(UserCommand::Plugins);
    message.admin_command = Some(AdminCommand::UploadAssets);
    message.members_joined = true;
    message.member_left = true;
    assert_eq!(route(&message, 7), Route::Command(UserCommand::Plugins));
    message.user_command = None;
    assert_eq!(route(&message, 7), Route::Administration(AdminCommand::UploadAssets));
    assert_eq!(route(&message, 8), Route::NewChatMembers);
    message.members_joined = false;
    assert_eq!(route(&message, 8), Route::LeftChatMember);
    message.member_left = false;
    assert_eq!(route(&message, 8), Route::MentionLookup);
    message.text = Some(" @bot 5".to_string());
    assert_eq!(route(&message, 8), Route::GroupMessage);
    message.text = None;
    assert_eq!(route(&message, 8), Route::GroupMessage);
    message.chat = ChatKind::Private;
    assert_eq!(route(&message, 8), Route::PrivateMessage);
    message.chat = ChatKind::Channel;
    assert_eq!(route(&message, 8), Route::Unhandled);
}

#[test]
fn commands_of_the_administrator_need_the_administrator() {
    let mut message = plain(ChatKind::Private, Some("/delete_asset x"));
    message.admin_command = Some(AdminCommand::DeleteAsset);
    assert_eq!(route(&message, 7), Route::Administration(AdminCommand::DeleteAsset));
    assert_eq!(route(&message, 8), Route::PrivateMessage);
    message.from = None;
    assert_eq!(route(&message, 0), Route::PrivateMessage);
    message.from = Some(User { id: u64::MAX, is_bot: false });
    assert_eq!(route(&message, -1), Route::Administration(AdminCommand::DeleteAsset));
}

#[test]
fn mentions_count_in_groups_only() {
    let private = plain(ChatKind::Private, Some("@bot 5"));
    assert_eq!(route(&private, 1), Route::PrivateMessage);
    let supergroup = plain(ChatKind::Supergroup, Some("@bot 5"));
    assert_eq!(route(&supergroup, 1), Route::MentionLookup);
    let mut start = plain(ChatKind::Channel, Some("/start"));
    start.user_command = Some(UserCommand::Start);
    assert_eq!(route(&start, 1), Route::Command(UserCommand::Start));
}

#[test]
fn a_scan_visits_every_chat() {
    assert_eq!(DAILY_SCAN_SCHEDULE, "0 0 9 * * *");
    assert_eq!(MAX_CONCURRENT_CHECKS, 10);
    let load = || match run_scan() {
        ScanStep::LoadChats(s) => s,
        other => panic!("{:?}", other),
    };
    assert_eq!(
        load().statement().sql,
        "SELECT DISTINCT chat_id FROM chat_members WHERE is_active = TRUE"
    );
    let mut step = load().resume(Ok(vec![-1, -2, -3]));
    let mut visited = Vec::new();
    let result = loop {
        step = match step {
            ScanStep::ScanChat(s) => {
                assert!(matches!(s.start(), ChatScanStep::LoadMembers(m) if m.chat_id == s.chat_id));
                visited.push(s.chat_id);
                s.resume()
            }
            ScanStep::Done(result) => break result,
            other => panic!("{:?}", other),
        }
    };
    assert!(result.is_ok());
    assert_eq!(visited, vec![-1, -2, -3]);
    assert!(matches!(load().resume(Ok(vec![])), ScanStep::Done(Ok(()))));
    assert!(matches!(load().resume(Err("locked".to_string())), ScanStep::Done(Err(_))));
}

fn report(checks: Vec<(i64, Outcome)>) -> Option<SendReport<Vec<i64>>> {
    let load = match scan_chat(-100) {
        ChatScanStep::LoadMembers(s) => s,
        other => panic!("{:?}", other),
    };
    assert!(matches!(load.statement().params[0], Param::Int(-100)));
    let members: Vec<i64> = checks.iter().map(|c| c.0).collect();
    let check = match load.resume(Ok(members.clone())) {
        ChatScanStep::CheckMembers(s) => s,
        other => panic!("{:?}", other),
    };
    assert_eq!(check.members, members);
    match check.resume(checks) {
        ChatScanStep::SendReport(s) => Some(s),
        ChatScanStep::Done(Ok(())) => None,
        other => panic!("{:?}", other),
    }
}

#[test]
fn the_hits_of_a_chat_are_reported() {
    let send = report(vec![
        (11, Outcome::Found),
        (12, Outcome::NotFound),
        (13, Outcome::Failed),
        (14, Outcome::Found),
    ])
    .unwrap();
    assert_eq!(send.chat_id, -100);
    assert_eq!(send.hits, vec![11, 14]);
    let message = send.message();
    assert!(message.is_html());
    assert_eq!(
        message.text(),
        "🛡 <b>Daily Scan Report</b>\n\nThe following members are using the compromised Telega client:\n\n1. <a href=\"tg://user?id=11\">11</a>\n2. <a href=\"tg://user?id=14\">14</a>"
    );
    assert!(matches!(send.resume(Sending::Sent), ChatScanStep::Done(Ok(()))));
}

#[test]
fn the_order_of_the_checks_is_irrelevant() {
    let checks = vec![
        (11, Outcome::Found),
        (12, Outcome::NotFound),
        (13, Outcome::Found),
        (14, Outcome::Failed),
    ];
    let mut turned = checks.clone();
    turned.rotate_left(3);
    turned.swap(1, 3);
    let mut hits = report(turned).unwrap().hits;
    assert_eq!(hits, vec![13, 11]);
    hits.sort();
    assert_eq!(hits, report(checks).unwrap().hits);
}

#[test]
fn a_chat_without_hits_is_left_alone() {
    assert!(report(vec![(12, Outcome::NotFound), (13, Outcome::Failed)]).is_none());
    match scan_chat(-100) {
        ChatScanStep::LoadMembers(s) => {
            assert!(matches!(s.resume(Ok(vec![])), ChatScanStep::Done(Ok(()))))
        }
        other => panic!("{:?}", other),
    }
    match scan_chat(-100) {
        ChatScanStep::LoadMembers(s) => assert!(matches!(
            s.resume(Err("locked".to_string())),
            ChatScanStep::Done(Err(_))
        )),
        other => panic!("{:?}", other),
    }
}

#[test]
fn a_chat_that_is_gone_is_forgotten() {
    let send = || report(vec![(11, Outcome::Found)]).unwrap();
    for sending in [
        Sending::BotKicked,
        Sending::BotKickedFromSupergroup,
        Sending::ChatNotFound,
        Sending::UserDeactivated,
        Sending::GroupDeactivated,
    ] {
        match send().resume(sending) {
            ChatScanStep::Deactivate(s) => {
                assert_eq!(
                    s.statement().sql,
                    "UPDATE chat_members SET is_active = FALSE WHERE chat_id = ?"
                );
                assert!(matches!(s.statement().params[0], Param::Int(-100)));
                assert!(matches!(s.resume(), ChatScanStep::Done(Ok(()))));
            }
            other => panic!("{:?}", other),
        }
    }
    assert!(matches!(send().resume(Sending::Failed), ChatScanStep::Done(Ok(()))));
}
