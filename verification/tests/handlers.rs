use telega_checker::api_client::ApiError;
use telega_checker::bot_handler::conversation::{
    handle_inline_query, handle_mention_lookup, handle_message, inline_article, InlineAnswer,
    InlineStep, Place, TalkStep, INLINE_CACHE_SECONDS,
};
use telega_checker::bot_handler::members::{
    handle_group_message, handle_left_chat_member, handle_new_chat_members, Membership, TrackStep,
};
use telega_checker::bot_handler::plugins::{
    handle_callback_query, handle_delete_asset, handle_plugins, handle_start,
    send_plugins_and_token, CallbackStep, DeleteStep, PluginStep,
};
use telega_checker::bot_handler::upload::{
    handle_upload_assets, Listing, Upload, UploadReply, UploadStep,
};
use telega_checker::bot_handler::{
    check_user, is_group_chat, is_private_chat, read_outcome, sender, ChatKind, CheckError,
    CheckStep, Outcome, User, LOOKUP_CACHE_CAPACITY, LOOKUP_CACHE_SECONDS,
    TRACKING_CACHE_CAPACITY, TRACKING_CACHE_SECONDS,
};
use telega_checker::crypto::hash_user_id;
use telega_checker::db::{Param, Statement};
use telega_checker::messages::{Button, Message};

fn human(id: u64) -> User {
    User { id, is_bot: false }
}

fn text_param(statement: &Statement, i: usize) -> String {
    match &statement.params[i] {
        Param::Text(t) => t.clone(),
        Param::Int(n) => panic!("{} is no text", n),
    }
}

fn int_param(statement: &Statement, i: usize) -> i64 {
    match &statement.params[i] {
        Param::Int(n) => *n,
        Param::Text(t) => panic!("{} is no number", t),
    }
}

/// Runs a talk to its end with the given outcome: the recorded pseudonyms and
/// result, and the reply.
fn run_talk(step: TalkStep<String>, outcome: Outcome) -> (Vec<String>, Option<String>) {
    let mut log = Vec::new();
    let mut step = step;
    loop {
        step = match step {
            TalkStep::LogUser(s) => {
                log.push(format!("user {}", text_param(&s.statement("salt"), 0)));
                s.resume()
            }
            TalkStep::CheckUser(s) => {
                log.push(format!("check {}", s.talk.telegram_id));
                s.resume(outcome)
            }
            TalkStep::LogRequest(s) => {
                let statement = s.statement("salt");
                log.push(format!(
                    "request {} {} {}",
                    text_param(&statement, 0),
                    int_param(&statement, 1),
                    text_param(&statement, 2)
                ));
                s.resume()
            }
            TalkStep::Reply(message) => return (log, Some(message.text())),
            TalkStep::Done => return (log, None),
        }
    }
}

#[test]
fn caches_have_their_limits() {
    assert_eq!(LOOKUP_CACHE_CAPACITY, 100_000);
    assert_eq!(LOOKUP_CACHE_SECONDS, 24 * 60 * 60);
    assert_eq!(TRACKING_CACHE_CAPACITY, 50_000);
    assert_eq!(TRACKING_CACHE_SECONDS, 5 * 60);
    assert_eq!(INLINE_CACHE_SECONDS, 300);
}

#[test]
fn chats_are_told_apart() {
    assert!(is_group_chat(ChatKind::Group));
    assert!(is_group_chat(ChatKind::Supergroup));
    assert!(!is_group_chat(ChatKind::Channel));
    assert!(!is_group_chat(ChatKind::Private));
    assert!(is_private_chat(ChatKind::Private));
    assert!(!is_private_chat(ChatKind::Group));
    assert_eq!(sender(Some(human(5))), 5);
    assert_eq!(sender(Some(human(u64::MAX))), -1);
    assert_eq!(sender(None), 0);
}

#[test]
fn the_database_is_asked_before_the_api() {
    let step = check_user(5);
    let query = match step {
        CheckStep::QueryKnown(s) => s,
        other => panic!("{:?}", other),
    };
    assert_eq!(int_param(&query.statement(), 0), 5);
    assert!(matches!(query.resume(Ok(Some(1))), CheckStep::Done(Ok(true))));
}

#[test]
fn hits_of_the_api_are_persisted() {
    let ask = || match check_user(5) {
        CheckStep::QueryKnown(s) => match s.resume(Ok(None)) {
            CheckStep::QueryApi(s) => s,
            other => panic!("{:?}", other),
        },
        other => panic!("{:?}", other),
    };
    assert_eq!(ask().telegram_id, 5);
    assert!(matches!(ask().resume(Ok(false)), CheckStep::Done(Ok(false))));
    let save = match ask().resume(Ok(true)) {
        CheckStep::SaveKnown(s) => s,
        other => panic!("{:?}", other),
    };
    assert_eq!(
        save.statement().sql,
        "INSERT OR IGNORE INTO known_users (telegram_id) VALUES (?)"
    );
    assert!(matches!(save.resume(Ok(())), CheckStep::Done(Ok(true))));
}

#[test]
fn failures_of_a_check_are_passed_on() {
    let query = || match check_user(5) {
        CheckStep::QueryKnown(s) => s,
        other => panic!("{:?}", other),
    };
    assert!(matches!(
        query().resume(Err("locked".to_string())),
        CheckStep::Done(Err(CheckError::Database(_)))
    ));
    let api = || match query().resume(Ok(None)) {
        CheckStep::QueryApi(s) => s,
        other => panic!("{:?}", other),
    };
    assert!(matches!(
        api().resume(Err(ApiError::NoSession)),
        CheckStep::Done(Err(CheckError::Api(ApiError::NoSession)))
    ));
    match api().resume(Ok(true)) {
        CheckStep::SaveKnown(s) => assert!(matches!(
            s.resume(Err("full".to_string())),
            CheckStep::Done(Err(CheckError::Database(_)))
        )),
        other => panic!("{:?}", other),
    }
    assert_eq!(read_outcome::<String>(&Ok(true)), Outcome::Found);
    assert_eq!(read_outcome::<String>(&Ok(false)), Outcome::NotFound);
    assert_eq!(read_outcome::<String>(&Err("e".to_string())), Outcome::Failed);
}

#[test]
fn a_message_with_an_id_is_answered() {
    let hash = hash_user_id(77, "salt");
    let step = handle_message(Some("  123456789\n"), Some(human(77)));
    let (log, reply) = run_talk(step, Outcome::Found);
    assert_eq!(
        log,
        vec![
            format!("user {}", hash),
            "check 123456789".to_string(),
            format!("request {} 123456789 YES", hash),
        ]
    );
    assert_eq!(reply.as_deref(), Some("YES — this ID is registered in Telega."));
}

#[test]
fn each_outcome_has_its_answer() {
    let ask = || handle_message(Some("5"), None);
    let (log, reply) = run_talk(ask(), Outcome::NotFound);
    assert!(log[2].ends_with("5 NO"));
    assert_eq!(reply.as_deref(), Some("NO — this ID was not found in Telega."));
    let (log, reply) = run_talk(ask(), Outcome::Failed);
    assert!(log[2].ends_with("5 ERROR"));
    assert_eq!(
        reply.as_deref(),
        Some("⚠️ Произошла ошибка при проверке. Попробуйте позже.")
    );
    assert_eq!(log[0], format!("user {}", hash_user_id(0, "salt")));
}

#[test]
fn other_messages_are_ignored_or_refused() {
    assert!(matches!(handle_message(None, None), TalkStep::Done));
    assert!(matches!(handle_message(Some("  /help"), None), TalkStep::Done));
    for text in ["", "abc", "0", "-5", "1 2", "9223372036854775808"] {
        let (log, reply) = run_talk(handle_message(Some(text), None), Outcome::Found);
        assert!(log.is_empty());
        assert_eq!(
            reply.as_deref(),
            Some("Пожалуйста, отправь корректный Telegram ID (только цифры).")
        );
    }
}

#[test]
fn a_mention_with_an_id_is_answered() {
    for text in [
        "@telega_checker_rs_bot 123456789",
        "@Telega_Checker_RS_Bot\t123456789 ",
        "@telega_checker_rs_bot123456789",
    ] {
        let step = handle_mention_lookup(Some(text), "telega_checker_rs_bot", Some(human(9)));
        match &step {
            TalkStep::LogUser(s) => {
                assert_eq!(s.talk.place, Place::Group);
                assert_eq!(s.talk.user_id, 9);
                assert_eq!(s.talk.telegram_id, 123456789);
            }
            other => panic!("{:?}", other),
        }
        let (_, reply) = run_talk(step, Outcome::Failed);
        assert_eq!(reply.as_deref(), Some("⚠️ Ошибка при проверке."));
    }
}

#[test]
fn other_mentions_are_ignored() {
    for text in ["@someone_else 5", "telega 5", "@bot", "@bot x", "@bot 0", "@bot -1", "5"] {
        assert!(matches!(handle_mention_lookup(Some(text), "bot", None), TalkStep::Done));
    }
    assert!(matches!(handle_mention_lookup(None, "bot", None), TalkStep::Done));
}

#[test]
fn each_outcome_has_its_answer_in_a_group() {
    let ask = || handle_mention_lookup(Some("@bot 5"), "bot", None);
    let (log, reply) = run_talk(ask(), Outcome::Found);
    assert!(log[2].ends_with("5 YES"));
    assert_eq!(reply.as_deref(), Some("✅ ДА — этот ID зарегистрирован в Telega."));
    let (_, reply) = run_talk(ask(), Outcome::NotFound);
    assert_eq!(reply.as_deref(), Some("❌ НЕТ — этот ID не найден в Telega."));
}

#[test]
fn a_mention_is_cut_off_by_its_characters() {
    // The Kelvin sign is three bytes long and its lowercase letter one; the
    // capital letter of the last name has a lowercase form of two characters.
    for (text, username) in [
        ("@\u{212A}\u{212A}\u{212A}\u{212A}bot 5", "kkkkbot"),
        ("@\u{212A} 5", "k"),
        ("@bot\u{a0}5", "bot"),
        ("@BOT\u{2003}\u{3000}5", "bot"),
        ("@\u{130}x 5", "i\u{307}x"),
        ("@i\u{307}X 5", "\u{130}x"),
    ] {
        match handle_mention_lookup(Some(text), username, None) {
            TalkStep::LogUser(s) => assert_eq!(s.talk.telegram_id, 5, "{}", text),
            other => panic!("{}: {:?}", text, other),
        }
    }
}

#[test]
fn inline_queries_are_answered() {
    for query in ["", "abc", "0", "-5"] {
        assert!(matches!(handle_inline_query(query, human(9)), InlineStep::Empty));
    }
    for (outcome, result, title) in [
        (Outcome::Found, "YES", "✅ ДА"),
        (Outcome::NotFound, "NO", "❌ НЕТ"),
        (Outcome::Failed, "ERROR", "⚠️ Ошибка"),
    ] {
        let (rows, answer) = run_inline(" 123456789 ", 9, outcome);
        assert_eq!(
            rows,
            vec![format!("{} 123456789 {}", hash_user_id(9, "salt"), result)]
        );
        assert_eq!(answer.article.id, "check_123456789");
        assert_eq!(answer.article.title, title);
        assert_eq!(answer.cache_seconds, 300);
    }
}

/// Runs an inline query to its answer: the rows that it records, and the answer.
fn run_inline(query: &str, user_id: u64, outcome: Outcome) -> (Vec<String>, InlineAnswer<String>) {
    let mut rows = Vec::new();
    let mut step = handle_inline_query(query, human(user_id));
    loop {
        step = match step {
            InlineStep::CheckUser(s) => s.resume(outcome),
            InlineStep::LogRequest(s) => {
                let statement = s.statement("salt");
                assert_eq!(
                    statement.sql,
                    "INSERT INTO requests_log (user_hash, queried_id, result) VALUES (?, ?, ?)"
                );
                rows.push(format!(
                    "{} {} {}",
                    text_param(&statement, 0),
                    int_param(&statement, 1),
                    text_param(&statement, 2)
                ));
                s.resume()
            }
            InlineStep::Answer(answer) => return (rows, answer),
            InlineStep::Empty => panic!("no lookup"),
        }
    }
}

#[test]
fn inline_articles_say_what_was_found() {
    let found = inline_article(5, Outcome::Found);
    assert_eq!(found.id, "check_5");
    assert_eq!(found.title, "✅ ДА");
    assert_eq!(found.description, "ID 5 зарегистрирован в Telega");
    assert_eq!(found.text, "✅ ДА — ID 5 зарегистрирован в Telega.");
    let not_found = inline_article(5, Outcome::NotFound);
    assert_eq!(not_found.title, "❌ НЕТ");
    assert_eq!(not_found.description, "ID 5 не найден в Telega");
    assert_eq!(not_found.text, "❌ НЕТ — ID 5 не найден в Telega.");
    let failed = inline_article(5, Outcome::Failed);
    assert_eq!(failed.id, "check_5");
    assert_eq!(failed.title, "⚠️ Ошибка");
    assert_eq!(failed.description, "Не удалось проверить ID 5");
    assert_eq!(failed.text, "⚠️ Ошибка при проверке ID 5.");
}

#[test]
fn members_are_tracked_once() {
    let membership = Membership { chat_id: -100, user_id: 5 };
    let look = match handle_group_message(-100, Some(human(5))) {
        TrackStep::LookInCache(s) => s,
        other => panic!("{:?}", other),
    };
    assert_eq!(look.membership, membership);
    assert_eq!(look.resume(true), TrackStep::Done);
    assert_eq!(look.resume(false), TrackStep::Track(membership));
    assert_eq!(handle_left_chat_member(-100, Some(human(5))), Some(membership));
    assert_eq!(handle_group_message(-100, None), TrackStep::Done);
    assert_eq!(
        handle_group_message(-100, Some(User { id: 5, is_bot: true })),
        TrackStep::Done
    );
}

#[test]
fn joining_and_leaving_are_about_the_same_row() {
    let joined = handle_new_chat_members(
        -100,
        Some(vec![human(1), User { id: 2, is_bot: true }, human(3)]),
    );
    assert_eq!(
        joined,
        vec![
            Membership { chat_id: -100, user_id: 1 },
            Membership { chat_id: -100, user_id: 3 },
        ]
    );
    assert!(handle_new_chat_members(-100, None).is_empty());
    let left = handle_left_chat_member(-100, Some(human(3))).unwrap();
    assert_eq!(left, joined[1]);
    assert_eq!(handle_left_chat_member(-100, None), None);
    for i in 0..2 {
        assert_eq!(int_param(&left.track(), i), int_param(&left.untrack(), i));
    }
    assert!(left.track().sql.starts_with("INSERT INTO chat_members"));
    assert!(left.untrack().sql.starts_with("UPDATE chat_members SET is_active = FALSE"));
}

#[test]
fn the_greeting_offers_the_plugins() {
    let greeting = handle_start();
    assert!(greeting.text().starts_with("Добро пожаловать в TelegaChecker!\n\nTelega Checker"));
    assert!(greeting.text().ends_with("обращайтесь: @Berektassuly"));
    assert!(greeting.is_html());
    let button = greeting.button().unwrap();
    assert_eq!(button, Button::GetPlugins);
    assert_eq!(button.label(), "Скачать плагины и получить API ключ");
    assert_eq!(button.data(), "get_plugins");
}

#[test]
fn plugins_are_for_private_chats() {
    match handle_plugins(ChatKind::Group, Some(human(5))) {
        PluginStep::Reply(m) => {
            assert_eq!(m.text(), "Эта команда доступна только в личных сообщениях.");
            assert!(!m.is_html());
        }
        other => panic!("{:?}", other),
    }
    assert!(matches!(handle_plugins(ChatKind::Private, None), PluginStep::Done));
    assert!(matches!(
        handle_plugins(ChatKind::Private, Some(human(5))),
        PluginStep::LoadToken(s) if s.user_id == 5
    ));
}

#[test]
fn every_asset_is_delivered_then_the_instruction() {
    let load = match send_plugins_and_token(5) {
        PluginStep::LoadToken(s) => s,
        other => panic!("{:?}", other),
    };
    assert_eq!(int_param(&load.statements().select, 0), 5);
    let load = match load.resume(Ok("TOKEN".to_string())) {
        PluginStep::LoadAssets(s) => s,
        other => panic!("{:?}", other),
    };
    assert_eq!(load.statement().sql, "SELECT name, file_id FROM plugin_assets ORDER BY name");
    let assets: Vec<(String, String)> = ["a", "b", "c"]
        .iter()
        .map(|n| (n.to_string(), format!("file-{}", n)))
        .collect();
    let mut step = load.resume(Ok(assets));
    let mut sent = Vec::new();
    let message = loop {
        step = match step {
            PluginStep::SendAsset(s) => {
                assert_eq!(s.file_id, format!("file-{}", s.name));
                sent.push(s.name.clone());
                s.resume()
            }
            PluginStep::Reply(m) => break m,
            other => panic!("{:?}", other),
        }
    };
    assert_eq!(sent, vec!["a", "b", "c"]);
    assert!(message.text().starts_with("<b>Инструкция по установке плагинов</b>\n\n1. "));
    assert!(message.text().contains("<b>Ваш API токен:</b>\n<code>TOKEN</code>\n\n4. "));
    assert!(message.text().ends_with("Подробная инструкция: /plugins"));
    assert!(message.is_html());
    assert_eq!(message.button(), Some(Button::ResetToken));
}

#[test]
fn a_delivery_that_cannot_be_made_says_so() {
    let load = || match send_plugins_and_token(5) {
        PluginStep::LoadToken(s) => s,
        other => panic!("{:?}", other),
    };
    match load().resume(Err("locked".to_string())) {
        PluginStep::Reply(m) => assert_eq!(m.text(), "Ошибка при создании API токена."),
        other => panic!("{:?}", other),
    }
    let assets = || match load().resume(Ok("T".to_string())) {
        PluginStep::LoadAssets(s) => s,
        other => panic!("{:?}", other),
    };
    match assets().resume(Err("locked".to_string())) {
        PluginStep::Reply(m) => assert_eq!(m.text(), "Ошибка при загрузке плагинов."),
        other => panic!("{:?}", other),
    }
    match assets().resume(Ok(vec![])) {
        PluginStep::Reply(m) => assert_eq!(
            m.text(),
            "Плагины ещё не загружены. Администратор должен выполнить /upload_assets."
        ),
        other => panic!("{:?}", other),
    }
}

#[test]
fn an_asset_is_deleted_by_the_administrator() {
    let delete = || match handle_delete_asset(Some(human(42)), 42, "  ayugram ") {
        DeleteStep::Delete(s) => s,
        other => panic!("{:?}", other),
    };
    assert_eq!(delete().name, "ayugram");
    assert_eq!(text_param(&delete().statement(), 0), "ayugram");
    let deleted = delete().resume(Ok(1));
    assert_eq!(deleted.text(), "Плагин <b>ayugram</b> успешно удалён.");
    assert!(deleted.is_html());
    assert_eq!(delete().resume(Ok(0)).text(), "Плагин <b>ayugram</b> не найден.");
    let failed = delete().resume(Err("locked".to_string()));
    assert_eq!(failed.text(), "Произошла ошибка при удалении плагина.");
    assert!(!failed.is_html());
    match handle_delete_asset(Some(human(42)), 42, " ") {
        DeleteStep::Reply(m) => assert_eq!(
            m.text(),
            "Пожалуйста, укажите имя плагина. Пример: <code>/delete_asset ayugram</code>"
        ),
        other => panic!("{:?}", other),
    }
}

#[test]
fn only_the_administrator_changes_assets() {
    assert!(matches!(handle_delete_asset(Some(human(41)), 42, "x"), DeleteStep::Ignore));
    assert!(matches!(handle_delete_asset(None, 42, "x"), DeleteStep::Ignore));
    assert!(matches!(handle_upload_assets(Some(human(41)), 42), UploadStep::Ignore));
    assert!(matches!(handle_upload_assets(None, 42), UploadStep::Ignore));
    assert!(matches!(handle_upload_assets(Some(human(42)), 42), UploadStep::Announce(_)));
}

#[test]
fn buttons_do_what_they_say() {
    let press = handle_callback_query(Some(Button::GetPlugins.data()), human(5), Some(-1));
    let acknowledge = match press {
        CallbackStep::Acknowledge(s) => s,
        other => panic!("{:?}", other),
    };
    match acknowledge.resume() {
        CallbackStep::Deliver(s) => {
            assert_eq!((s.chat_id, s.user_id), (-1, 5));
            assert!(matches!(s.start(), PluginStep::LoadToken(t) if t.user_id == 5));
        }
        other => panic!("{:?}", other),
    }
    let rotate = || match handle_callback_query(Some("reset_token"), human(5), Some(-1)) {
        CallbackStep::RotateToken(s) => s,
        other => panic!("{:?}", other),
    };
    assert_eq!(int_param(&rotate().rotation().update, 1), 5);
    let answer = match rotate().resume(Ok("NEW".to_string())) {
        CallbackStep::AnswerRotated(s) => s,
        other => panic!("{:?}", other),
    };
    assert_eq!(answer.text(), "Токен обновлён!");
    match answer.resume() {
        CallbackStep::Send(-1, message) => {
            assert_eq!(
                message.text(),
                "<b>Ваш новый API токен:</b>\n\n<code>NEW</code>\n\nОбновите токен в настройках плагина."
            );
            assert!(message.is_html());
            let button = message.button().unwrap();
            assert_eq!(button.label(), "Сбросить API токен");
            assert_eq!(button.data(), "reset_token");
        }
        other => panic!("{:?}", other),
    }
    match rotate().resume(Err("locked".to_string())) {
        CallbackStep::AnswerNotRotated(s) => {
            assert_eq!(s.text(), "Ошибка при обновлении токена")
        }
        other => panic!("{:?}", other),
    }
}

#[test]
fn other_presses_are_dismissed() {
    assert!(matches!(handle_callback_query(None, human(5), None), CallbackStep::Done));
    assert!(matches!(
        handle_callback_query(Some("other"), human(5), Some(1)),
        CallbackStep::Dismiss
    ));
    match handle_callback_query(Some("get_plugins"), human(5), None) {
        CallbackStep::Acknowledge(s) => assert!(matches!(s.resume(), CallbackStep::Done)),
        other => panic!("{:?}", other),
    }
    match handle_callback_query(Some("reset_token"), human(5), None) {
        CallbackStep::RotateToken(s) => match s.resume(Ok("T".to_string())) {
            CallbackStep::AnswerRotated(s) => assert!(matches!(s.resume(), CallbackStep::Done)),
            other => panic!("{:?}", other),
        },
        other => panic!("{:?}", other),
    }
}

fn listed(listing: Listing<String, Vec<Option<String>>>) -> Upload {
    match handle_upload_assets(Some(human(42)), 42) {
        UploadStep::Announce(s) => match s.resume() {
            UploadStep::ListDirectory(s) => s.resume(listing),
            other => panic!("{:?}", other),
        },
        other => panic!("{:?}", other),
    }
}

#[test]
fn every_plugin_is_uploaded_and_reported() {
    let names = vec![
        Some("rust_One.plugin".to_string()),
        None,
        Some("notes.txt".to_string()),
        Some("rust_Two.plugin".to_string()),
        Some("rust_Three.plugin".to_string()),
        Some("rust_Four.plugin".to_string()),
    ];
    let mut step = listed(Listing::Files(names));
    let mut uploaded = Vec::new();
    let message = loop {
        step = match step {
            UploadStep::UploadFile(s) => {
                uploaded.push(s.file.clone());
                let reply = match s.asset.as_str() {
                    "three" => UploadReply::NoDocument,
                    "four" => UploadReply::Failed,
                    asset => UploadReply::Document(format!("file-{}", asset)),
                };
                s.resume(reply)
            }
            UploadStep::StoreAsset(s) => {
                let statement = s.statement();
                assert_eq!(text_param(&statement, 0), s.asset);
                assert_eq!(text_param(&statement, 1), format!("file-{}", s.asset));
                let stored = s.asset == "one";
                s.resume(stored)
            }
            UploadStep::Reply(m) => break m,
            other => panic!("{:?}", other),
        }
    };
    assert_eq!(
        uploaded,
        vec!["rust_One.plugin", "rust_Two.plugin", "rust_Three.plugin", "rust_Four.plugin"]
    );
    assert_eq!(
        message.text(),
        "Загружено плагинов: 1\nОшибки:\ntwo: DB error\nthree: no document in response\nfour: upload failed"
    );
}

#[test]
fn an_upload_without_plugins_is_short() {
    let reply = |listing| match listed(listing) {
        UploadStep::Reply(m) => m.text(),
        other => panic!("{:?}", other),
    };
    assert_eq!(reply(Listing::Files(vec![])), "Загружено плагинов: 0");
    assert_eq!(
        reply(Listing::Missing),
        "Директория plugins/ не найдена. Убедитесь, что бот запущен из корня проекта."
    );
    assert_eq!(
        reply(Listing::Unreadable("denied".to_string())),
        "Ошибка чтения директории: denied"
    );
    let announcement: Message<String> = Message::Uploading;
    assert_eq!(announcement.text(), "Загрузка плагинов из директории plugins/...");
}
