use telega_checker::config::{AppConfig, ConfigError, EnvVars};
use telega_checker::crypto::{hash_user_id, truncated_hex};
use telega_checker::db::{
    check_telega_id, deactivate_chat, delete_plugin_asset, get_active_chat_ids,
    get_active_members, get_or_create_token, get_or_create_token_with, get_plugin_assets, init_db,
    log_bot_user, log_request, rotate_token, rotate_token_with, row_found, rows_changed,
    save_telega_id, track_chat_member, untrack_chat_member, upsert_plugin_asset,
    validate_user_token, Param, Statement,
};

fn ints(statement: &Statement) -> Vec<i64> {
    statement
        .params
        .iter()
        .filter_map(|p| if let Param::Int(n) = p { Some(*n) } else { None })
        .collect()
}

fn texts(statement: &Statement) -> Vec<String> {
    statement
        .params
        .iter()
        .filter_map(|p| if let Param::Text(t) = p { Some(t.clone()) } else { None })
        .collect()
}

fn all_set() -> EnvVars {
    EnvVars {
        bot_token: Some("T".to_string()),
        database_url: Some("sqlite:x.db".to_string()),
        application_key: None,
        api_bearer_token: Some("B".to_string()),
        api_port: None,
        db_max_connections: None,
        admin_id: Some("42".to_string()),
    }
}

#[test]
fn pseudonyms_are_truncated_hmacs() {
    assert_eq!(hash_user_id(123456789, "salt"), "ca658cd71e626eeac57bf0e1f9f0cd85");
    assert_eq!(hash_user_id(-1, ""), "408ac12673ac14b4acff15c51497df11");
    assert_eq!(hash_user_id(1, "соль"), "57fae0c2b9521f9c156eb43f60cc978d");
    assert_eq!(hash_user_id(0, &"x".repeat(100)), "706b1e5a1bcffb2486de07b4addb2613");
}

#[test]
fn a_tag_is_cut_after_sixteen_bytes() {
    let tag: Vec<u8> = (0..32).map(|i| i * 8 + 7).collect();
    assert_eq!(truncated_hex(&tag), "070f171f272f373f474f575f676f777f");
    let hash = hash_user_id(5, "a");
    assert_eq!(hash.len(), 32);
    assert!(hash.chars().all(|c| matches!(c, '0'..='9' | 'a'..='f')));
    assert_ne!(hash, hash_user_id(6, "a"));
    assert_ne!(hash, hash_user_id(5, "b"));
    assert_eq!(hash, hash_user_id(5, "a"));
}

#[test]
fn a_configuration_has_defaults() {
    let config = AppConfig::from_env(all_set()).unwrap();
    assert_eq!(config.bot_token, "T");
    assert_eq!(config.database_url, "sqlite:x.db");
    assert_eq!(config.application_key, "CHKIPMKGDIHBABABA");
    assert_eq!(config.api_bearer_token, "B");
    assert_eq!(config.api_port, 8080);
    assert_eq!(config.db_max_connections, 5);
    assert_eq!(config.admin_id, 42);
}

#[test]
fn a_configuration_is_read() {
    let mut vars = all_set();
    vars.application_key = Some("K".to_string());
    vars.api_port = Some("65535".to_string());
    vars.db_max_connections = Some("20".to_string());
    vars.admin_id = Some("-7".to_string());
    let config = AppConfig::from_env(vars).unwrap();
    assert_eq!(config.application_key, "K");
    assert_eq!(config.api_port, 65535);
    assert_eq!(config.db_max_connections, 20);
    assert_eq!(config.admin_id, -7);
}

#[test]
fn what_is_wrong_with_a_configuration_is_named() {
    let cases: Vec<(fn(&mut EnvVars), ConfigError, &str)> = vec![
        (|v| v.bot_token = None, ConfigError::NoBotToken, "TELOXIDE_TOKEN must be set"),
        (|v| v.database_url = None, ConfigError::NoDatabaseUrl, "DATABASE_URL must be set"),
        (
            |v| v.api_bearer_token = None,
            ConfigError::NoApiBearerToken,
            "API_BEARER_TOKEN must be set",
        ),
        (
            |v| v.api_port = Some("65536".to_string()),
            ConfigError::BadApiPort,
            "API_PORT must be a valid port number",
        ),
        (
            |v| v.db_max_connections = Some("many".to_string()),
            ConfigError::BadDatabaseMaxConnections,
            "DATABASE_MAX_CONNECTIONS must be a valid u32",
        ),
        (|v| v.admin_id = None, ConfigError::NoAdminId, "ADMIN_ID must be set"),
        (
            |v| v.admin_id = Some(" 42".to_string()),
            ConfigError::BadAdminId,
            "ADMIN_ID must be a valid integer (Telegram user ID)",
        ),
    ];
    for (spoil, error, message) in cases {
        let mut vars = all_set();
        spoil(&mut vars);
        assert_eq!(AppConfig::from_env(vars).unwrap_err(), error);
        assert_eq!(error.message(), message);
    }
}

#[test]
fn the_first_error_counts() {
    let mut vars = all_set();
    vars.database_url = None;
    vars.admin_id = None;
    vars.api_port = Some("x".to_string());
    assert_eq!(AppConfig::from_env(vars).unwrap_err(), ConfigError::NoDatabaseUrl);
}

#[test]
fn the_schema_is_created_in_order() {
    let schema = init_db();
    assert_eq!(schema.len(), 7);
    assert_eq!(schema[0].sql, "PRAGMA journal_mode=WAL;");
    for (i, table) in
        ["known_users", "bot_users", "requests_log", "chat_members", "api_tokens", "plugin_assets"]
            .iter()
            .enumerate()
    {
        let start = format!("CREATE TABLE IF NOT EXISTS {} (", table);
        assert!(schema[i + 1].sql.starts_with(&start), "{}", schema[i + 1].sql);
        assert!(schema[i + 1].params.is_empty());
    }
}

#[test]
fn statements_bind_their_values_in_order() {
    let s = check_telega_id(5);
    assert_eq!(s.sql, "SELECT 1 FROM known_users WHERE telegram_id = ? LIMIT 1");
    assert_eq!(ints(&s), vec![5]);
    assert_eq!(save_telega_id(6).sql, "INSERT OR IGNORE INTO known_users (telegram_id) VALUES (?)");
    assert_eq!(ints(&save_telega_id(6)), vec![6]);
    assert_eq!(texts(&log_bot_user("h")), vec!["h"]);
    let s = log_request("h", 9, "YES");
    assert_eq!(s.sql, "INSERT INTO requests_log (user_hash, queried_id, result) VALUES (?, ?, ?)");
    assert!(matches!(&s.params[0], Param::Text(t) if t == "h"));
    assert!(matches!(s.params[1], Param::Int(9)));
    assert!(matches!(&s.params[2], Param::Text(t) if t == "YES"));
    assert_eq!(ints(&track_chat_member(-100, 5)), vec![-100, 5]);
    assert_eq!(ints(&untrack_chat_member(-100, 5)), vec![-100, 5]);
    assert_eq!(
        untrack_chat_member(1, 2).sql,
        "UPDATE chat_members SET is_active = FALSE WHERE chat_id = ? AND user_id = ?"
    );
    assert_eq!(ints(&deactivate_chat(-3)), vec![-3]);
    assert!(get_active_chat_ids().params.is_empty());
    assert_eq!(ints(&get_active_members(-4)), vec![-4]);
    assert_eq!(texts(&validate_user_token("t")), vec!["t"]);
    assert_eq!(texts(&upsert_plugin_asset("n", "f")), vec!["n", "f"]);
    assert_eq!(get_plugin_assets().sql, "SELECT name, file_id FROM plugin_assets ORDER BY name");
    assert_eq!(texts(&delete_plugin_asset("n")), vec!["n"]);
}

#[test]
fn every_placeholder_has_a_value() {
    let mut all = init_db();
    all.push(check_telega_id(1));
    all.push(save_telega_id(1));
    all.push(log_bot_user("h"));
    all.push(log_request("h", 1, "NO"));
    all.push(track_chat_member(1, 2));
    all.push(untrack_chat_member(1, 2));
    all.push(deactivate_chat(1));
    all.push(get_active_chat_ids());
    all.push(get_active_members(1));
    all.push(validate_user_token("t"));
    all.push(upsert_plugin_asset("n", "f"));
    all.push(get_plugin_assets());
    all.push(delete_plugin_asset("n"));
    let tokens = get_or_create_token(1);
    all.push(tokens.insert);
    all.push(tokens.select);
    all.push(rotate_token(1).update);
    for s in all {
        assert_eq!(s.sql.matches('?').count(), s.params.len(), "{}", s.sql);
    }
}

#[test]
fn tokens_are_random_uuids() {
    let mut seen: Vec<String> = Vec::new();
    for _ in 0..20 {
        let rotation = rotate_token(7);
        let token = rotation.token;
        assert_eq!(texts(&rotation.update), vec![token.clone()]);
        assert_eq!(ints(&rotation.update), vec![7]);
        assert_eq!(token.len(), 36);
        for (i, c) in token.chars().enumerate() {
            match i {
                8 | 13 | 18 | 23 => assert_eq!(c, '-'),
                14 => assert_eq!(c, '4'),
                19 => assert!(matches!(c, '8' | '9' | 'a' | 'b')),
                _ => assert!(matches!(c, '0'..='9' | 'a'..='f')),
            }
        }
        assert!(!seen.contains(&token));
        seen.push(token);
    }
    let statements = get_or_create_token(7);
    assert_eq!(ints(&statements.insert), vec![7]);
    assert_eq!(texts(&statements.insert)[0].len(), 36);
}

#[test]
fn a_given_token_is_stored() {
    let statements = get_or_create_token_with(7, "abc".to_string());
    assert_eq!(
        statements.insert.sql,
        "INSERT OR IGNORE INTO api_tokens (user_id, api_token) VALUES (?, ?)"
    );
    assert_eq!(ints(&statements.insert), vec![7]);
    assert_eq!(texts(&statements.insert), vec!["abc"]);
    assert_eq!(statements.select.sql, "SELECT api_token FROM api_tokens WHERE user_id = ?");
    assert_eq!(ints(&statements.select), vec![7]);
    let rotation = rotate_token_with(7, "def".to_string());
    assert_eq!(rotation.token, "def");
    assert!(matches!(&rotation.update.params[0], Param::Text(t) if t == "def"));
    assert!(matches!(rotation.update.params[1], Param::Int(7)));
}

#[test]
fn rows_are_interpreted() {
    assert!(row_found(Some(1)));
    assert!(!row_found(None));
    assert!(rows_changed(1));
    assert!(!rows_changed(0));
}
