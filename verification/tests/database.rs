use std::future::Future;
use std::pin::Pin;

use sqlx::sqlite::SqlitePoolOptions;
use sqlx::{Sqlite, SqlitePool};
use telega_checker::db::{
    check_telega_id, deactivate_chat, delete_plugin_asset, get_active_chat_ids,
    get_active_members, get_or_create_token, get_or_create_token_with, get_plugin_assets, init_db,
    log_bot_user, log_request, rotate_token, rotate_token_with, row_found, rows_changed, save_telega_id, track_chat_member,
    untrack_chat_member, upsert_plugin_asset, validate_user_token, Param, Statement,
};

/// Runs `script` against an empty database.
fn with_database(
    script: for<'a> fn(&'a SqlitePool) -> Pin<Box<dyn Future<Output = ()> + 'a>>,
) {
    let runtime = tokio::runtime::Builder::new_current_thread().enable_all().build().unwrap();
    runtime.block_on(async {
        let pool = SqlitePoolOptions::new()
            .max_connections(1)
            .connect("sqlite::memory:")
            .await
            .unwrap();
        for statement in init_db() {
            run(&pool, statement).await;
        }
        script(&pool).await;
    });
}

async fn run(pool: &SqlitePool, statement: Statement) -> u64 {
    try_run(pool, statement).await.unwrap()
}

async fn try_run(pool: &SqlitePool, statement: Statement) -> Result<u64, sqlx::Error> {
    let mut query = sqlx::query::<Sqlite>(statement.sql);
    for param in statement.params {
        query = match param {
            Param::Int(n) => query.bind(n),
            Param::Text(t) => query.bind(t),
        };
    }
    Ok(query.execute(pool).await?.rows_affected())
}

async fn numbers(pool: &SqlitePool, statement: Statement) -> Vec<i64> {
    let mut query = sqlx::query_scalar::<Sqlite, i64>(statement.sql);
    for param in statement.params {
        query = match param {
            Param::Int(n) => query.bind(n),
            Param::Text(t) => query.bind(t),
        };
    }
    query.fetch_all(pool).await.unwrap()
}

async fn found(pool: &SqlitePool, statement: Statement) -> bool {
    let rows = numbers(pool, statement).await;
    row_found(rows.first().map(|n| *n as i32))
}

async fn token(pool: &SqlitePool, user_id: i64) -> String {
    let statements = get_or_create_token(user_id);
    run(pool, statements.insert).await;
    match &statements.select.params[0] {
        Param::Int(n) => sqlx::query_scalar::<Sqlite, String>(statements.select.sql)
            .bind(*n)
            .fetch_one(pool)
            .await
            .unwrap(),
        Param::Text(t) => panic!("{}", t),
    }
}

async fn assets(pool: &SqlitePool) -> Vec<(String, String)> {
    sqlx::query_as::<Sqlite, (String, String)>(get_plugin_assets().sql)
        .fetch_all(pool)
        .await
        .unwrap()
}

#[test]
fn known_ids_are_found_again() {
    with_database(|pool| {
        Box::pin(async move {
            assert!(!found(pool, check_telega_id(5)).await);
            run(pool, save_telega_id(5)).await;
            run(pool, save_telega_id(5)).await;
            assert!(found(pool, check_telega_id(5)).await);
            assert!(!found(pool, check_telega_id(6)).await);
        })
    });
}

#[test]
fn members_come_and_go() {
    with_database(|pool| {
        Box::pin(async move {
            for (chat, user) in [(-1, 10), (-1, 11), (-2, 10), (-1, 10)] {
                run(pool, track_chat_member(chat, user)).await;
            }
            let mut chats = numbers(pool, get_active_chat_ids()).await;
            chats.sort();
            assert_eq!(chats, vec![-2, -1]);
            let mut members = numbers(pool, get_active_members(-1)).await;
            members.sort();
            assert_eq!(members, vec![10, 11]);
            run(pool, untrack_chat_member(-1, 10)).await;
            assert_eq!(numbers(pool, get_active_members(-1)).await, vec![11]);
            assert_eq!(numbers(pool, get_active_members(-2)).await, vec![10]);
            run(pool, track_chat_member(-1, 10)).await;
            assert_eq!(numbers(pool, get_active_members(-1)).await.len(), 2);
            run(pool, deactivate_chat(-1)).await;
            assert!(numbers(pool, get_active_members(-1)).await.is_empty());
            assert_eq!(numbers(pool, get_active_chat_ids()).await, vec![-2]);
        })
    });
}

#[test]
fn a_token_stays_until_it_is_rotated() {
    with_database(|pool| {
        Box::pin(async move {
            let first = token(pool, 7).await;
            assert_eq!(token(pool, 7).await, first);
            assert_ne!(token(pool, 8).await, first);
            assert!(found(pool, validate_user_token(&first)).await);
            let rotation = rotate_token(7);
            run(pool, rotation.update).await;
            assert_eq!(token(pool, 7).await, rotation.token);
            assert!(found(pool, validate_user_token(&rotation.token)).await);
            assert!(!found(pool, validate_user_token(&first)).await);
        })
    });
}

async fn all_tokens(pool: &SqlitePool) -> Vec<(i64, String)> {
    sqlx::query_as::<Sqlite, (i64, String)>(
        "SELECT user_id, api_token FROM api_tokens ORDER BY user_id",
    )
    .fetch_all(pool)
    .await
    .unwrap()
}

#[test]
fn the_table_of_tokens_is_a_map_without_duplicates() {
    with_database(|pool| {
        Box::pin(async move {
            let row = |user: i64, token: &str| (user, token.to_string());
            let ask = |user, token: &str| get_or_create_token_with(user, token.to_string()).insert;
            let rotate = |user, token: &str| rotate_token_with(user, token.to_string()).update;
            run(pool, ask(7, "a")).await;
            run(pool, ask(7, "b")).await;
            assert_eq!(all_tokens(pool).await, vec![row(7, "a")]);
            // A token that someone else has is given to no one.
            run(pool, ask(8, "a")).await;
            assert_eq!(all_tokens(pool).await, vec![row(7, "a")]);
            run(pool, ask(8, "b")).await;
            assert!(try_run(pool, rotate(8, "a")).await.is_err());
            assert_eq!(all_tokens(pool).await, vec![row(7, "a"), row(8, "b")]);
            assert_eq!(run(pool, rotate(9, "c")).await, 0);
            assert_eq!(all_tokens(pool).await, vec![row(7, "a"), row(8, "b")]);
            run(pool, rotate(8, "b")).await;
            run(pool, rotate(8, "c")).await;
            assert_eq!(all_tokens(pool).await, vec![row(7, "a"), row(8, "c")]);
            run(pool, ask(8, "d")).await;
            assert_eq!(all_tokens(pool).await, vec![row(7, "a"), row(8, "c")]);
        })
    });
}

#[test]
fn assets_are_kept_by_name() {
    with_database(|pool| {
        Box::pin(async move {
            run(pool, upsert_plugin_asset("b", "1")).await;
            run(pool, upsert_plugin_asset("a", "2")).await;
            run(pool, upsert_plugin_asset("b", "3")).await;
            let pair = |n: &str, f: &str| (n.to_string(), f.to_string());
            assert_eq!(assets(pool).await, vec![pair("a", "2"), pair("b", "3")]);
            assert!(rows_changed(run(pool, delete_plugin_asset("a")).await));
            assert!(!rows_changed(run(pool, delete_plugin_asset("a")).await));
            assert_eq!(assets(pool).await, vec![pair("b", "3")]);
        })
    });
}

#[test]
fn requests_are_recorded_by_pseudonym() {
    with_database(|pool| {
        Box::pin(async move {
            assert_eq!(run(pool, log_bot_user("h")).await, 1);
            assert_eq!(run(pool, log_bot_user("h")).await, 1);
            assert_eq!(run(pool, log_request("h", 5, "YES")).await, 1);
            let rows = sqlx::query_as::<Sqlite, (String, i64, String)>(
                "SELECT user_hash, queried_id, result FROM requests_log",
            )
            .fetch_all(pool)
            .await
            .unwrap();
            assert_eq!(rows, vec![("h".to_string(), 5, "YES".to_string())]);
            let users = sqlx::query_scalar::<Sqlite, i64>("SELECT count(*) FROM bot_users")
                .fetch_one(pool)
                .await
                .unwrap();
            assert_eq!(users, 1);
        })
    });
}
