//! The SQL statements of the SQLite database: its schema, and what is read
//! from and written to it.
//!
//! Each function gives the statement to run, with the values that its
//! placeholders are bound to in order. No value ever becomes part of the SQL.
//! What a statement does to the tables is up to SQLite: nothing is stated of it
//! here. What those on API tokens come to by the meaning of their SQL stands in
//! [`crate::token_laws`].
use crate::crypto::is_hex_digit;
use vstd::prelude::*;

verus! {

// ---------------------------------------------------------------------------
// Statements
// ---------------------------------------------------------------------------

/// A value that a placeholder is bound to. `S` is `String` in code and
/// `Seq<char>` in contracts.
#[derive(Debug)]
pub enum Param<S> {
    Int(i64),
    Text(S),
}

/// An SQL statement and the values of its placeholders.
#[derive(Debug)]
pub struct Statement {
    pub sql: &'static str,
    pub params: Vec<Param<String>>,
}

/// What a [`Statement`] holds.
pub struct StatementView {
    pub sql: Seq<char>,
    pub params: Seq<Param<Seq<char>>>,
}

impl View for Param<String> {
    type V = Param<Seq<char>>;

    open spec fn view(&self) -> Param<Seq<char>> {
        match *self {
            Param::Int(n) => Param::Int(n),
            Param::Text(t) => Param::Text(t@),
        }
    }
}

impl View for Statement {
    type V = StatementView;

    open spec fn view(&self) -> StatementView {
        StatementView {
            sql: self.sql@,
            params: self.params@.map_values(|p: Param<String>| p@),
        }
    }
}

// ---------------------------------------------------------------------------
// Schema
// ---------------------------------------------------------------------------

/// Write-ahead logging, for better concurrent reads.
pub const JOURNAL_MODE: &'static str =
    "PRAGMA journal_mode=WAL;";

/// Telegram IDs confirmed to exist in the Telega call infrastructure.
pub const KNOWN_USERS: &'static str =
    "CREATE TABLE IF NOT EXISTS known_users (telegram_id INTEGER PRIMARY KEY, discovered_at TEXT NOT NULL DEFAULT (datetime('now')))";

/// Users who have interacted with the bot, by pseudonym.
pub const BOT_USERS: &'static str =
    "CREATE TABLE IF NOT EXISTS bot_users (user_hash TEXT PRIMARY KEY, first_seen TEXT NOT NULL DEFAULT (datetime('now')), last_seen TEXT NOT NULL DEFAULT (datetime('now')))";

/// Analytics log of every lookup request, by pseudonym.
pub const REQUESTS_LOG: &'static str =
    "CREATE TABLE IF NOT EXISTS requests_log (id INTEGER PRIMARY KEY AUTOINCREMENT, user_hash TEXT NOT NULL, queried_id INTEGER NOT NULL, result TEXT NOT NULL, created_at TEXT NOT NULL DEFAULT (datetime('now')))";

/// Which users are in which groups, with a soft-delete flag.
pub const CHAT_MEMBERS: &'static str =
    "CREATE TABLE IF NOT EXISTS chat_members (chat_id INTEGER NOT NULL, user_id INTEGER NOT NULL, is_active BOOLEAN NOT NULL DEFAULT TRUE, PRIMARY KEY (chat_id, user_id))";

/// Per-user API tokens.
pub const API_TOKENS: &'static str =
    "CREATE TABLE IF NOT EXISTS api_tokens (user_id INTEGER PRIMARY KEY, api_token TEXT NOT NULL UNIQUE, created_at TEXT NOT NULL DEFAULT (datetime('now')), updated_at TEXT NOT NULL DEFAULT (datetime('now')))";

/// File IDs of the plugin assets.
pub const PLUGIN_ASSETS: &'static str =
    "CREATE TABLE IF NOT EXISTS plugin_assets (name TEXT PRIMARY KEY, file_id TEXT NOT NULL, updated_at TEXT NOT NULL DEFAULT (datetime('now')))";

/// The SQL that creates what is missing of the schema, in order.
pub open spec fn schema() -> Seq<Seq<char>> {
    seq![
        JOURNAL_MODE@,
        KNOWN_USERS@,
        BOT_USERS@,
        REQUESTS_LOG@,
        CHAT_MEMBERS@,
        API_TOKENS@,
        PLUGIN_ASSETS@,
    ]
}

/// The statements that create what is missing of the schema, in order.
pub fn init_db() -> (statements: Vec<Statement>)
    ensures
        statements@.map_values(|s: Statement| s@) == schema().map_values(
            |sql: Seq<char>| StatementView { sql, params: Seq::empty() },
        ),
{
    let mut statements: Vec<Statement> = Vec::new();
    statements.push(unbound(JOURNAL_MODE));
    statements.push(unbound(KNOWN_USERS));
    statements.push(unbound(BOT_USERS));
    statements.push(unbound(REQUESTS_LOG));
    statements.push(unbound(CHAT_MEMBERS));
    statements.push(unbound(API_TOKENS));
    statements.push(unbound(PLUGIN_ASSETS));
    assert(statements@.map_values(|s: Statement| s@) =~= schema().map_values(
        |sql: Seq<char>| StatementView { sql, params: Seq::empty() },
    ));
    statements
}

/// A statement without placeholders.
fn unbound(sql: &'static str) -> (statement: Statement)
    ensures
        statement@ == (StatementView { sql: sql@, params: Seq::empty() }),
{
    let statement = Statement { sql, params: Vec::new() };
    assert(statement@.params =~= Seq::empty());
    statement
}

/// A statement with one placeholder.
fn bound(sql: &'static str, a: Param<String>) -> (statement: Statement)
    ensures
        statement@ == (StatementView { sql: sql@, params: seq![a@] }),
{
    let mut params: Vec<Param<String>> = Vec::new();
    params.push(a);
    let statement = Statement { sql, params };
    assert(statement@.params =~= seq![a@]);
    statement
}

/// A statement with two placeholders.
fn bound_two(sql: &'static str, a: Param<String>, b: Param<String>) -> (statement: Statement)
    ensures
        statement@ == (StatementView { sql: sql@, params: seq![a@, b@] }),
{
    let mut params: Vec<Param<String>> = Vec::new();
    params.push(a);
    params.push(b);
    let statement = Statement { sql, params };
    assert(statement@.params =~= seq![a@, b@]);
    statement
}

// ---------------------------------------------------------------------------
// Reading and writing
// ---------------------------------------------------------------------------

/// Looks a Telegram ID up among those known to be in the Telega infrastructure.
pub const CHECK_TELEGA_ID: &'static str =
    "SELECT 1 FROM known_users WHERE telegram_id = ? LIMIT 1";

pub open spec fn check_telega_id_statement(telegram_id: i64) -> StatementView {
    StatementView { sql: CHECK_TELEGA_ID@, params: seq![Param::Int(telegram_id)] }
}

/// Looks a Telegram ID up among those known to be in the Telega infrastructure.
pub fn check_telega_id(telegram_id: i64) -> (statement: Statement)
    ensures
        statement@ == check_telega_id_statement(telegram_id),
{
    bound(CHECK_TELEGA_ID, Param::Int(telegram_id))
}

/// Persists a confirmed Telega ID; one that is there already is left as it is.
pub const SAVE_TELEGA_ID: &'static str =
    "INSERT OR IGNORE INTO known_users (telegram_id) VALUES (?)";

pub open spec fn save_telega_id_statement(telegram_id: i64) -> StatementView {
    StatementView { sql: SAVE_TELEGA_ID@, params: seq![Param::Int(telegram_id)] }
}

/// Persists a confirmed Telega ID; one that is there already is left as it is.
pub fn save_telega_id(telegram_id: i64) -> (statement: Statement)
    ensures
        statement@ == save_telega_id_statement(telegram_id),
{
    bound(SAVE_TELEGA_ID, Param::Int(telegram_id))
}

/// Records a bot user by pseudonym, or refreshes when they were last seen.
pub const LOG_BOT_USER: &'static str =
    "INSERT INTO bot_users (user_hash) VALUES (?) ON CONFLICT(user_hash) DO UPDATE SET last_seen = datetime('now')";

pub open spec fn log_bot_user_statement(user_hash: Seq<char>) -> StatementView {
    StatementView { sql: LOG_BOT_USER@, params: seq![Param::Text(user_hash)] }
}

/// Records a bot user by pseudonym, or refreshes when they were last seen.
pub fn log_bot_user(user_hash: &str) -> (statement: Statement)
    ensures
        statement@ == log_bot_user_statement(user_hash@),
{
    bound(LOG_BOT_USER, Param::Text(user_hash.to_owned()))
}

/// Appends a lookup to the analytics log, by the pseudonym of who asked.
pub const LOG_REQUEST: &'static str =
    "INSERT INTO requests_log (user_hash, queried_id, result) VALUES (?, ?, ?)";

pub open spec fn log_request_statement(user_hash: Seq<char>, queried_id: i64, result: Seq<char>) -> StatementView {
    StatementView { sql: LOG_REQUEST@, params: seq![Param::Text(user_hash), Param::Int(queried_id), Param::Text(result)] }
}

/// Appends a lookup to the analytics log, by the pseudonym of who asked.
pub fn log_request(user_hash: &str, queried_id: i64, result: &str) -> (statement: Statement)
    ensures
        statement@ == log_request_statement(user_hash@, queried_id, result@),
{
    let mut params: Vec<Param<String>> = Vec::new();
    params.push(Param::Text(user_hash.to_owned()));
    params.push(Param::Int(queried_id));
    params.push(Param::Text(result.to_owned()));
    let statement = Statement { sql: LOG_REQUEST, params };
    assert(statement@.params =~= log_request_statement(user_hash@, queried_id, result@).params);
    statement
}

/// Tracks a user in a group chat, and re-activates one who had left.
pub const TRACK_CHAT_MEMBER: &'static str =
    "INSERT INTO chat_members (chat_id, user_id, is_active) VALUES (?, ?, TRUE) ON CONFLICT(chat_id, user_id) DO UPDATE SET is_active = TRUE";

pub open spec fn track_chat_member_statement(chat_id: i64, user_id: i64) -> StatementView {
    StatementView { sql: TRACK_CHAT_MEMBER@, params: seq![Param::Int(chat_id), Param::Int(user_id)] }
}

/// Tracks a user in a group chat, and re-activates one who had left.
pub fn track_chat_member(chat_id: i64, user_id: i64) -> (statement: Statement)
    ensures
        statement@ == track_chat_member_statement(chat_id, user_id),
{
    bound_two(TRACK_CHAT_MEMBER, Param::Int(chat_id), Param::Int(user_id))
}

/// Soft-deletes a user from one chat.
pub const UNTRACK_CHAT_MEMBER: &'static str =
    "UPDATE chat_members SET is_active = FALSE WHERE chat_id = ? AND user_id = ?";

pub open spec fn untrack_chat_member_statement(chat_id: i64, user_id: i64) -> StatementView {
    StatementView { sql: UNTRACK_CHAT_MEMBER@, params: seq![Param::Int(chat_id), Param::Int(user_id)] }
}

/// Soft-deletes a user from one chat.
pub fn untrack_chat_member(chat_id: i64, user_id: i64) -> (statement: Statement)
    ensures
        statement@ == untrack_chat_member_statement(chat_id, user_id),
{
    bound_two(UNTRACK_CHAT_MEMBER, Param::Int(chat_id), Param::Int(user_id))
}

/// Soft-deletes all members of a chat.
pub const DEACTIVATE_CHAT: &'static str =
    "UPDATE chat_members SET is_active = FALSE WHERE chat_id = ?";

pub open spec fn deactivate_chat_statement(chat_id: i64) -> StatementView {
    StatementView { sql: DEACTIVATE_CHAT@, params: seq![Param::Int(chat_id)] }
}

/// Soft-deletes all members of a chat.
pub fn deactivate_chat(chat_id: i64) -> (statement: Statement)
    ensures
        statement@ == deactivate_chat_statement(chat_id),
{
    bound(DEACTIVATE_CHAT, Param::Int(chat_id))
}

/// Lists the chats that have at least one active member, each once.
pub const GET_ACTIVE_CHAT_IDS: &'static str =
    "SELECT DISTINCT chat_id FROM chat_members WHERE is_active = TRUE";

pub open spec fn get_active_chat_ids_statement() -> StatementView {
    StatementView { sql: GET_ACTIVE_CHAT_IDS@, params: Seq::empty() }
}

/// Lists the chats that have at least one active member, each once.
pub fn get_active_chat_ids() -> (statement: Statement)
    ensures
        statement@ == get_active_chat_ids_statement(),
{
    unbound(GET_ACTIVE_CHAT_IDS)
}

/// Lists the active members of a chat.
pub const GET_ACTIVE_MEMBERS: &'static str =
    "SELECT user_id FROM chat_members WHERE chat_id = ? AND is_active = TRUE";

pub open spec fn get_active_members_statement(chat_id: i64) -> StatementView {
    StatementView { sql: GET_ACTIVE_MEMBERS@, params: seq![Param::Int(chat_id)] }
}

/// Lists the active members of a chat.
pub fn get_active_members(chat_id: i64) -> (statement: Statement)
    ensures
        statement@ == get_active_members_statement(chat_id),
{
    bound(GET_ACTIVE_MEMBERS, Param::Int(chat_id))
}

/// Gives a user an API token, unless they have one.
pub const INSERT_TOKEN: &'static str =
    "INSERT OR IGNORE INTO api_tokens (user_id, api_token) VALUES (?, ?)";

pub open spec fn insert_token_statement(user_id: i64, token: Seq<char>) -> StatementView {
    StatementView { sql: INSERT_TOKEN@, params: seq![Param::Int(user_id), Param::Text(token)] }
}

/// Gives a user an API token, unless they have one.
fn insert_token(user_id: i64, token: &str) -> (statement: Statement)
    ensures
        statement@ == insert_token_statement(user_id, token@),
{
    bound_two(INSERT_TOKEN, Param::Int(user_id), Param::Text(token.to_owned()))
}

/// Reads the API token of a user.
pub const SELECT_TOKEN: &'static str =
    "SELECT api_token FROM api_tokens WHERE user_id = ?";

pub open spec fn select_token_statement(user_id: i64) -> StatementView {
    StatementView { sql: SELECT_TOKEN@, params: seq![Param::Int(user_id)] }
}

/// Reads the API token of a user.
fn select_token(user_id: i64) -> (statement: Statement)
    ensures
        statement@ == select_token_statement(user_id),
{
    bound(SELECT_TOKEN, Param::Int(user_id))
}

/// Replaces the API token of a user.
pub const UPDATE_TOKEN: &'static str =
    "UPDATE api_tokens SET api_token = ?, updated_at = datetime('now') WHERE user_id = ?";

pub open spec fn update_token_statement(token: Seq<char>, user_id: i64) -> StatementView {
    StatementView { sql: UPDATE_TOKEN@, params: seq![Param::Text(token), Param::Int(user_id)] }
}

/// Replaces the API token of a user.
fn update_token(token: &str, user_id: i64) -> (statement: Statement)
    ensures
        statement@ == update_token_statement(token@, user_id),
{
    bound_two(UPDATE_TOKEN, Param::Text(token.to_owned()), Param::Int(user_id))
}

/// Looks an API token up among those that were given out.
pub const VALIDATE_USER_TOKEN: &'static str =
    "SELECT 1 FROM api_tokens WHERE api_token = ? LIMIT 1";

pub open spec fn validate_user_token_statement(token: Seq<char>) -> StatementView {
    StatementView { sql: VALIDATE_USER_TOKEN@, params: seq![Param::Text(token)] }
}

/// Looks an API token up among those that were given out.
pub fn validate_user_token(token: &str) -> (statement: Statement)
    ensures
        statement@ == validate_user_token_statement(token@),
{
    bound(VALIDATE_USER_TOKEN, Param::Text(token.to_owned()))
}

/// Stores the latest file ID of a plugin asset.
pub const UPSERT_PLUGIN_ASSET: &'static str =
    "INSERT INTO plugin_assets (name, file_id) VALUES (?, ?) ON CONFLICT(name) DO UPDATE SET file_id = excluded.file_id, updated_at = datetime('now')";

pub open spec fn upsert_plugin_asset_statement(name: Seq<char>, file_id: Seq<char>) -> StatementView {
    StatementView { sql: UPSERT_PLUGIN_ASSET@, params: seq![Param::Text(name), Param::Text(file_id)] }
}

/// Stores the latest file ID of a plugin asset.
pub fn upsert_plugin_asset(name: &str, file_id: &str) -> (statement: Statement)
    ensures
        statement@ == upsert_plugin_asset_statement(name@, file_id@),
{
    bound_two(UPSERT_PLUGIN_ASSET, Param::Text(name.to_owned()), Param::Text(file_id.to_owned()))
}

/// Lists the plugin assets by name, with their file IDs.
pub const GET_PLUGIN_ASSETS: &'static str =
    "SELECT name, file_id FROM plugin_assets ORDER BY name";

pub open spec fn get_plugin_assets_statement() -> StatementView {
    StatementView { sql: GET_PLUGIN_ASSETS@, params: Seq::empty() }
}

/// Lists the plugin assets by name, with their file IDs.
pub fn get_plugin_assets() -> (statement: Statement)
    ensures
        statement@ == get_plugin_assets_statement(),
{
    unbound(GET_PLUGIN_ASSETS)
}

/// Deletes a plugin asset.
pub const DELETE_PLUGIN_ASSET: &'static str =
    "DELETE FROM plugin_assets WHERE name = ?";

pub open spec fn delete_plugin_asset_statement(name: Seq<char>) -> StatementView {
    StatementView { sql: DELETE_PLUGIN_ASSET@, params: seq![Param::Text(name)] }
}

/// Deletes a plugin asset.
pub fn delete_plugin_asset(name: &str) -> (statement: Statement)
    ensures
        statement@ == delete_plugin_asset_statement(name@),
{
    bound(DELETE_PLUGIN_ASSET, Param::Text(name.to_owned()))
}

/// Whether a query for one row found it.
pub fn row_found(row: Option<i32>) -> (found: bool)
    ensures
        found == (row is Some),
{
    row.is_some()
}

/// Whether a statement changed any row.
pub fn rows_changed(rows_affected: u64) -> (changed: bool)
    ensures
        changed == (rows_affected > 0),
{
    rows_affected > 0
}

// ---------------------------------------------------------------------------
// API tokens
// ---------------------------------------------------------------------------

/// Whether `s` is the text of a random UUID: 32 lowercase hexadecimal digits
/// in groups of 8, 4, 4, 4 and 12 with hyphens between them, of version 4 and
/// of the variant of RFC 9562.
pub open spec fn is_uuid_v4(s: Seq<char>) -> bool {
    &&& s.len() == 36
    &&& forall|i: int|
        0 <= i < 36 ==> if i == 8 || i == 13 || i == 18 || i == 23 {
            #[trigger] s[i] == '-'
        } else {
            is_hex_digit(s[i])
        }
    &&& s[14] == '4'
    &&& s[19] == '8' || s[19] == '9' || s[19] == 'a' || s[19] == 'b'
}

/// `uuid::Uuid::new_v4`, written out by its `to_string`. Which UUID it is
/// rests on chance; every one has the form of a random UUID.
#[verifier::external_body]
fn new_token() -> (token: String)
    ensures
        is_uuid_v4(token@),
{
    uuid::Uuid::new_v4().to_string()
}

/// What `get_or_create_token` runs: `insert` first, which does nothing for a
/// user who has a token, then `select`, which reads the token that holds.
#[derive(Debug)]
pub struct TokenStatements {
    pub insert: Statement,
    pub select: Statement,
}

/// The statements that give a user a token unless they have one, and read it.
pub fn get_or_create_token(user_id: i64) -> (statements: TokenStatements)
    ensures
        exists|token: Seq<char>| #[trigger]
            is_uuid_v4(token) && statements.insert@ == insert_token_statement(user_id, token),
        statements.select@ == select_token_statement(user_id),
{
    let token = new_token();
    get_or_create_token_with(user_id, token)
}

/// The statements that give a user `token` unless they have one, and read it.
pub fn get_or_create_token_with(user_id: i64, token: String) -> (statements: TokenStatements)
    ensures
        statements.insert@ == insert_token_statement(user_id, token@),
        statements.select@ == select_token_statement(user_id),
{
    TokenStatements {
        insert: insert_token(user_id, token.as_str()),
        select: select_token(user_id),
    }
}

/// What `rotate_token` runs, and the token that it gives to a user who has one.
#[derive(Debug)]
pub struct TokenRotation {
    pub update: Statement,
    pub token: String,
}

/// The statement that replaces a user's token with a fresh one.
pub fn rotate_token(user_id: i64) -> (rotation: TokenRotation)
    ensures
        is_uuid_v4(rotation.token@),
        rotation.update@ == update_token_statement(rotation.token@, user_id),
{
    let token = new_token();
    rotate_token_with(user_id, token)
}

/// The statement that replaces a user's token with `token`.
pub fn rotate_token_with(user_id: i64, token: String) -> (rotation: TokenRotation)
    ensures
        rotation.token@ == token@,
        rotation.update@ == update_token_statement(token@, user_id),
{
    TokenRotation { update: update_token(token.as_str(), user_id), token }
}

// ---------------------------------------------------------------------------
// Placeholders
// ---------------------------------------------------------------------------

/// How many placeholders an SQL text has.
pub open spec fn placeholders(sql: Seq<char>) -> nat {
    sql.filter(|c: char| c == '?').len()
}

/// Whether a statement has as many values as its SQL has placeholders.
pub open spec fn is_bound(statement: StatementView) -> bool {
    statement.params.len() == placeholders(statement.sql)
}

/// How many placeholders stand among the first `n` characters.
spec fn placeholders_before(sql: Seq<char>, n: int) -> nat {
    placeholders(
        if n < sql.len() {
            sql.take(n)
        } else {
            sql
        },
    )
}

/// How many placeholders stand at `i`: one or none.
spec fn at_one(sql: Seq<char>, i: int) -> nat {
    if i < sql.len() && sql[i] == '?' {
        1
    } else {
        0
    }
}

/// How many placeholders stand at the four places from `i` on.
spec fn at_four(sql: Seq<char>, i: int) -> nat {
    at_one(sql, i) + at_one(sql, i + 1) + at_one(sql, i + 2) + at_one(sql, i + 3)
}

/// How many placeholders stand at the 16 places from `i` on.
spec fn at_16(sql: Seq<char>, i: int) -> nat {
    at_four(sql, i) + at_four(sql, i + 4) + at_four(sql, i + 8) + at_four(sql, i + 12)
}

/// How many placeholders stand at the 64 places from `i` on.
spec fn at_64(sql: Seq<char>, i: int) -> nat {
    at_16(sql, i) + at_16(sql, i + 16) + at_16(sql, i + 32) + at_16(sql, i + 48)
}

/// How many placeholders stand at the first 256 places.
spec fn at_256(sql: Seq<char>) -> nat {
    at_64(sql, 0) + at_64(sql, 64) + at_64(sql, 128) + at_64(sql, 192)
}

proof fn lemma_at_four(sql: Seq<char>, i: int)
    requires
        0 <= i,
    ensures
        placeholders_before(sql, i + 4) == placeholders_before(sql, i) + at_four(sql, i),
{
    reveal(Seq::filter);
    assert forall|j: int| i <= j < i + 4 implies #[trigger] placeholders_before(sql, j + 1)
        == placeholders_before(sql, j) + at_one(sql, j) by {
        if j < sql.len() {
            assert(sql.take(j + 1).drop_last() =~= sql.take(j));
            assert(sql.take(sql.len() as int) =~= sql);
        }
    }
    assert(placeholders_before(sql, i + 1 + 1) == placeholders_before(sql, i + 2));
    assert(placeholders_before(sql, i + 2 + 1) == placeholders_before(sql, i + 3));
    assert(placeholders_before(sql, i + 3 + 1) == placeholders_before(sql, i + 4));
}

proof fn lemma_at_64(sql: Seq<char>, i: int)
    requires
        0 <= i,
    ensures
        placeholders_before(sql, i + 64) == placeholders_before(sql, i) + at_64(sql, i),
{
    assert forall|j: int| 0 <= j implies #[trigger] placeholders_before(sql, j + 16)
        == placeholders_before(sql, j) + at_16(sql, j) by {
        lemma_at_four(sql, j);
        lemma_at_four(sql, j + 4);
        lemma_at_four(sql, j + 8);
        lemma_at_four(sql, j + 12);
    }
    assert(placeholders_before(sql, i + 16 + 16) == placeholders_before(sql, i + 32));
    assert(placeholders_before(sql, i + 32 + 16) == placeholders_before(sql, i + 48));
    assert(placeholders_before(sql, i + 48 + 16) == placeholders_before(sql, i + 64));
}

/// The placeholders of an SQL text of up to 256 characters are counted place by
/// place.
proof fn lemma_placeholders(sql: Seq<char>)
    requires
        sql.len() <= 256,
    ensures
        placeholders(sql) == at_256(sql),
{
    reveal(Seq::filter);
    lemma_at_64(sql, 0);
    lemma_at_64(sql, 64);
    lemma_at_64(sql, 128);
    lemma_at_64(sql, 192);
    assert(sql.take(0) =~= Seq::<char>::empty());
}

/// Every statement has exactly one value for each placeholder of its SQL.
#[verifier::rlimit(60)]
pub proof fn law_placeholders_are_bound(
    a: i64,
    b: i64,
    s: Seq<char>,
    t: Seq<char>,
)
    ensures
        forall|i: int|
            0 <= i < schema().len() ==> is_bound(
                StatementView { sql: #[trigger] schema()[i], params: Seq::empty() },
            ),
        is_bound(check_telega_id_statement(a)),
        is_bound(save_telega_id_statement(a)),
        is_bound(log_bot_user_statement(s)),
        is_bound(log_request_statement(s, a, t)),
        is_bound(track_chat_member_statement(a, b)),
        is_bound(untrack_chat_member_statement(a, b)),
        is_bound(deactivate_chat_statement(a)),
        is_bound(get_active_chat_ids_statement()),
        is_bound(get_active_members_statement(a)),
        is_bound(insert_token_statement(a, s)),
        is_bound(select_token_statement(a)),
        is_bound(update_token_statement(s, a)),
        is_bound(validate_user_token_statement(s)),
        is_bound(upsert_plugin_asset_statement(s, t)),
        is_bound(get_plugin_assets_statement()),
        is_bound(delete_plugin_asset_statement(s)),
{
    assert(placeholders(JOURNAL_MODE@) == 0) by {
        reveal_strlit("PRAGMA journal_mode=WAL;");
        lemma_placeholders(JOURNAL_MODE@);
    }
    assert(placeholders(KNOWN_USERS@) == 0) by {
        reveal_strlit("CREATE TABLE IF NOT EXISTS known_users (telegram_id INTEGER PRIMARY KEY, discovered_at TEXT NOT NULL DEFAULT (datetime('now')))");
        lemma_placeholders(KNOWN_USERS@);
    }
    assert(placeholders(BOT_USERS@) == 0) by {
        reveal_strlit("CREATE TABLE IF NOT EXISTS bot_users (user_hash TEXT PRIMARY KEY, first_seen TEXT NOT NULL DEFAULT (datetime('now')), last_seen TEXT NOT NULL DEFAULT (datetime('now')))");
        lemma_placeholders(BOT_USERS@);
    }
    assert(placeholders(REQUESTS_LOG@) == 0) by {
        reveal_strlit("CREATE TABLE IF NOT EXISTS requests_log (id INTEGER PRIMARY KEY AUTOINCREMENT, user_hash TEXT NOT NULL, queried_id INTEGER NOT NULL, result TEXT NOT NULL, created_at TEXT NOT NULL DEFAULT (datetime('now')))");
        lemma_placeholders(REQUESTS_LOG@);
    }
    assert(placeholders(CHAT_MEMBERS@) == 0) by {
        reveal_strlit("CREATE TABLE IF NOT EXISTS chat_members (chat_id INTEGER NOT NULL, user_id INTEGER NOT NULL, is_active BOOLEAN NOT NULL DEFAULT TRUE, PRIMARY KEY (chat_id, user_id))");
        lemma_placeholders(CHAT_MEMBERS@);
    }
    assert(placeholders(API_TOKENS@) == 0) by {
        reveal_strlit("CREATE TABLE IF NOT EXISTS api_tokens (user_id INTEGER PRIMARY KEY, api_token TEXT NOT NULL UNIQUE, created_at TEXT NOT NULL DEFAULT (datetime('now')), updated_at TEXT NOT NULL DEFAULT (datetime('now')))");
        lemma_placeholders(API_TOKENS@);
    }
    assert(placeholders(PLUGIN_ASSETS@) == 0) by {
        reveal_strlit("CREATE TABLE IF NOT EXISTS plugin_assets (name TEXT PRIMARY KEY, file_id TEXT NOT NULL, updated_at TEXT NOT NULL DEFAULT (datetime('now')))");
        lemma_placeholders(PLUGIN_ASSETS@);
    }
    assert(placeholders(CHECK_TELEGA_ID@) == 1) by {
        reveal_strlit("SELECT 1 FROM known_users WHERE telegram_id = ? LIMIT 1");
        lemma_placeholders(CHECK_TELEGA_ID@);
    }
    assert(placeholders(SAVE_TELEGA_ID@) == 1) by {
        reveal_strlit("INSERT OR IGNORE INTO known_users (telegram_id) VALUES (?)");
        lemma_placeholders(SAVE_TELEGA_ID@);
    }
    assert(placeholders(LOG_BOT_USER@) == 1) by {
        reveal_strlit("INSERT INTO bot_users (user_hash) VALUES (?) ON CONFLICT(user_hash) DO UPDATE SET last_seen = datetime('now')");
        lemma_placeholders(LOG_BOT_USER@);
    }
    assert(placeholders(LOG_REQUEST@) == 3) by {
        reveal_strlit("INSERT INTO requests_log (user_hash, queried_id, result) VALUES (?, ?, ?)");
        lemma_placeholders(LOG_REQUEST@);
    }
    assert(placeholders(TRACK_CHAT_MEMBER@) == 2) by {
        reveal_strlit("INSERT INTO chat_members (chat_id, user_id, is_active) VALUES (?, ?, TRUE) ON CONFLICT(chat_id, user_id) DO UPDATE SET is_active = TRUE");
        lemma_placeholders(TRACK_CHAT_MEMBER@);
    }
    assert(placeholders(UNTRACK_CHAT_MEMBER@) == 2) by {
        reveal_strlit("UPDATE chat_members SET is_active = FALSE WHERE chat_id = ? AND user_id = ?");
        lemma_placeholders(UNTRACK_CHAT_MEMBER@);
    }
    assert(placeholders(DEACTIVATE_CHAT@) == 1) by {
        reveal_strlit("UPDATE chat_members SET is_active = FALSE WHERE chat_id = ?");
        lemma_placeholders(DEACTIVATE_CHAT@);
    }
    assert(placeholders(GET_ACTIVE_CHAT_IDS@) == 0) by {
        reveal_strlit("SELECT DISTINCT chat_id FROM chat_members WHERE is_active = TRUE");
        lemma_placeholders(GET_ACTIVE_CHAT_IDS@);
    }
    assert(placeholders(GET_ACTIVE_MEMBERS@) == 1) by {
        reveal_strlit("SELECT user_id FROM chat_members WHERE chat_id = ? AND is_active = TRUE");
        lemma_placeholders(GET_ACTIVE_MEMBERS@);
    }
    assert(placeholders(INSERT_TOKEN@) == 2) by {
        reveal_strlit("INSERT OR IGNORE INTO api_tokens (user_id, api_token) VALUES (?, ?)");
        lemma_placeholders(INSERT_TOKEN@);
    }
    assert(placeholders(SELECT_TOKEN@) == 1) by {
        reveal_strlit("SELECT api_token FROM api_tokens WHERE user_id = ?");
        lemma_placeholders(SELECT_TOKEN@);
    }
    assert(placeholders(UPDATE_TOKEN@) == 2) by {
        reveal_strlit("UPDATE api_tokens SET api_token = ?, updated_at = datetime('now') WHERE user_id = ?");
        lemma_placeholders(UPDATE_TOKEN@);
    }
    assert(placeholders(VALIDATE_USER_TOKEN@) == 1) by {
        reveal_strlit("SELECT 1 FROM api_tokens WHERE api_token = ? LIMIT 1");
        lemma_placeholders(VALIDATE_USER_TOKEN@);
    }
    assert(placeholders(UPSERT_PLUGIN_ASSET@) == 2) by {
        reveal_strlit("INSERT INTO plugin_assets (name, file_id) VALUES (?, ?) ON CONFLICT(name) DO UPDATE SET file_id = excluded.file_id, updated_at = datetime('now')");
        lemma_placeholders(UPSERT_PLUGIN_ASSET@);
    }
    assert(placeholders(GET_PLUGIN_ASSETS@) == 0) by {
        reveal_strlit("SELECT name, file_id FROM plugin_assets ORDER BY name");
        lemma_placeholders(GET_PLUGIN_ASSETS@);
    }
    assert(placeholders(DELETE_PLUGIN_ASSET@) == 1) by {
        reveal_strlit("DELETE FROM plugin_assets WHERE name = ?");
        lemma_placeholders(DELETE_PLUGIN_ASSET@);
    }
}

}
