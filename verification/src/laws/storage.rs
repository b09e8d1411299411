//! The configuration, the pseudonyms and the statements.
use crate::config::{AppConfig, ConfigError, EnvVars};
use crate::crypto::{be_bytes, hex_digit, hex_text, hmac_sha256_tag, user_hash};
use crate::db::{
    check_telega_id_statement, deactivate_chat_statement, delete_plugin_asset_statement,
    get_active_chat_ids_statement, get_active_members_statement, get_plugin_assets_statement,
    insert_token_statement, log_bot_user_statement, log_request_statement,
    save_telega_id_statement, schema, select_token_statement, track_chat_member_statement,
    untrack_chat_member_statement, update_token_statement, upsert_plugin_asset_statement,
    validate_user_token_statement, Param,
};
use crate::text::{decimal, i64_value, unsigned_value};
use vstd::prelude::*;
use vstd::utf8::encode_utf8;

verus! {

// ---------------------------------------------------------------------------
// The configuration
// ---------------------------------------------------------------------------

/// A port or a pool size that is not set has its default; one that is set is the
/// number that its text denotes, if that is small enough.
pub proof fn law_numbers_of_the_configuration(vars: EnvVars, n: int)
    ensures
        vars.api_port is None ==> vars.port() == Some(8080int),
        vars.api_port matches Some(text) ==> vars.port() == unsigned_value(text@, 65535),
        vars.api_port matches Some(text) && 0 <= n <= 65535 && text@ == decimal(n) ==> vars.port()
            == Some(n),
        vars.db_max_connections is None ==> vars.max_connections() == Some(5int),
        vars.db_max_connections matches Some(text) ==> vars.max_connections() == unsigned_value(
            text@,
            0xffff_ffff,
        ),
{
    reveal_strlit("8080");
    reveal_strlit("5");
    reveal_with_fuel(crate::text::number_value, 5);
    assert("8080"@.drop_last() =~= seq!['8', '0', '8']);
    assert(seq!['8', '0', '8'].drop_last() =~= seq!['8', '0']);
    assert(seq!['8', '0'].drop_last() =~= seq!['8']);
    assert(seq!['8'].drop_last() =~= Seq::<char>::empty());
    assert("5"@.drop_last() =~= Seq::<char>::empty());
    if let Some(text) = vars.api_port {
        if 0 <= n && text@ == decimal(n) {
            crate::text::law_decimal_denotes(n);
            crate::laws::text::law_decimal_form(n);
            assert('0' <= text@[0] <= '9');
        }
    }
}

/// There is a configuration if and only if everything that has no default is set
/// and every number is one. Otherwise the error is the first in the order token,
/// database, bearer token, port, pool size, administrator.
pub proof fn law_configuration_errors(vars: EnvVars)
    ensures
        ({
            let token = vars.bot_token is Some;
            let database = vars.database_url is Some;
            let bearer = vars.api_bearer_token is Some;
            let port = vars.port() is Some;
            let pool = vars.max_connections() is Some;
            let administrator = vars.admin_id is Some;
            let administrator_id = administrator && i64_value(vars.admin_id->0@) is Some;
            &&& vars.error() is None <==> token && database && bearer && port && pool
                && administrator_id
            &&& vars.error() == Some(ConfigError::NoBotToken) <==> !token
            &&& vars.error() == Some(ConfigError::NoDatabaseUrl) <==> token && !database
            &&& vars.error() == Some(ConfigError::NoApiBearerToken) <==> token && database
                && !bearer
            &&& vars.error() == Some(ConfigError::BadApiPort) <==> token && database && bearer
                && !port
            &&& vars.error() == Some(ConfigError::BadDatabaseMaxConnections) <==> token && database
                && bearer && port && !pool
            &&& vars.error() == Some(ConfigError::NoAdminId) <==> token && database && bearer
                && port && pool && !administrator
            &&& vars.error() == Some(ConfigError::BadAdminId) <==> token && database && bearer
                && port && pool && administrator && !administrator_id
        }),
{
}

/// A configuration holds what is set, field by field and as it is set, and the
/// default application key where none is.
pub proof fn law_configuration_is_what_is_set(vars: EnvVars, config: AppConfig)
    requires
        vars.error() is None,
    ensures
        vars.describes(config) <==> {
            &&& config.bot_token@ == vars.bot_token->0@
            &&& config.database_url@ == vars.database_url->0@
            &&& config.api_bearer_token@ == vars.api_bearer_token->0@
            &&& (vars.application_key matches Some(key) ==> config.application_key@ == key@)
            &&& vars.application_key is None ==> config.application_key@ == "CHKIPMKGDIHBABABA"@
            &&& config.api_port as int == vars.port()->0
            &&& config.db_max_connections as int == vars.max_connections()->0
            &&& i64_value(vars.admin_id->0@) == Some(config.admin_id)
        },
{
}

/// Each error names the variable that is wrong.
pub proof fn law_configuration_errors_name_the_variable(error: ConfigError)
    ensures
        error.text() == match error {
            ConfigError::NoBotToken => "TELOXIDE_TOKEN must be set"@,
            ConfigError::NoDatabaseUrl => "DATABASE_URL must be set"@,
            ConfigError::NoApiBearerToken => "API_BEARER_TOKEN must be set"@,
            ConfigError::BadApiPort => "API_PORT must be a valid port number"@,
            ConfigError::BadDatabaseMaxConnections =>
                "DATABASE_MAX_CONNECTIONS must be a valid u32"@,
            ConfigError::NoAdminId => "ADMIN_ID must be set"@,
            ConfigError::BadAdminId => "ADMIN_ID must be a valid integer (Telegram user ID)"@,
        },
{
}

// ---------------------------------------------------------------------------
// Pseudonyms
// ---------------------------------------------------------------------------

/// The eight bytes of an ID, read as digits in base 256, are the ID in two's
/// complement; so two IDs with the same bytes are one.
pub proof fn law_bytes_hold_the_id(n: i64)
    ensures
        be_bytes(n).len() == 8,
        be_bytes(n)[0] * 0x100_0000_0000_0000 + be_bytes(n)[1] * 0x1_0000_0000_0000 + be_bytes(n)[2]
            * 0x100_0000_0000 + be_bytes(n)[3] * 0x1_0000_0000 + be_bytes(n)[4] * 0x100_0000
            + be_bytes(n)[5] * 0x1_0000 + be_bytes(n)[6] * 0x100 + be_bytes(n)[7] == n as u64,
{
    let u = n as u64;
    assert((u >> 56u64) as u8 * 0x100_0000_0000_0000 + (u >> 48u64) as u8 * 0x1_0000_0000_0000 + (u
        >> 40u64) as u8 * 0x100_0000_0000 + (u >> 32u64) as u8 * 0x1_0000_0000 + (u >> 24u64) as u8
        * 0x100_0000 + (u >> 16u64) as u8 * 0x1_0000 + (u >> 8u64) as u8 * 0x100 + (u
        >> 0u64) as u8 == u) by (bit_vector);
}

/// Two IDs with the same bytes are one.
pub proof fn law_bytes_tell_ids_apart(a: i64, b: i64)
    requires
        be_bytes(a) == be_bytes(b),
    ensures
        a == b,
{
    law_bytes_hold_the_id(a);
    law_bytes_hold_the_id(b);
    assert(a as u64 == b as u64 ==> a == b) by (bit_vector);
}

/// Bytes are written one after the other, each as its two hexadecimal digits, the
/// higher one first.
pub proof fn law_hexadecimal(first: Seq<u8>, second: Seq<u8>, byte: u8)
    ensures
        hex_text(first + second) == hex_text(first) + hex_text(second),
        hex_text(seq![byte]) == seq![hex_digit(byte as int / 16), hex_digit(byte as int % 16)],
{
    assert(hex_text(first + second) =~= hex_text(first) + hex_text(second));
    assert(hex_text(seq![byte]) =~= seq![
        hex_digit(byte as int / 16),
        hex_digit(byte as int % 16),
    ]);
}

/// A pseudonym is the first half of the tag of the ID's bytes under the salt, in
/// hexadecimal: the ID and the salt are taken as they are, whatever they are.
pub proof fn law_pseudonyms_are_keyed_tags(telegram_id: i64, salt: Seq<char>)
    ensures
        ({
            let tag = hmac_sha256_tag(encode_utf8(salt), be_bytes(telegram_id));
            tag.len() == 32 ==> user_hash(telegram_id, salt).len() == 32 && user_hash(
                telegram_id,
                salt,
            ) == hex_text(tag.take(16))
        }),
{
    let tag = hmac_sha256_tag(encode_utf8(salt), be_bytes(telegram_id));
    if tag.len() == 32 {
        assert(user_hash(telegram_id, salt) =~= hex_text(tag.take(16)));
    }
}

// ---------------------------------------------------------------------------
// Statements
// ---------------------------------------------------------------------------

/// The schema is the journal mode, then the six tables, whatever is there.
pub proof fn law_schema_is_complete()
    ensures
        schema().len() == 7,
        schema()[0] == "PRAGMA journal_mode=WAL;"@,
        schema()[1] == crate::db::KNOWN_USERS@,
        schema()[2] == crate::db::BOT_USERS@,
        schema()[3] == crate::db::REQUESTS_LOG@,
        schema()[4] == crate::db::CHAT_MEMBERS@,
        schema()[5] == crate::db::API_TOKENS@,
        schema()[6] == crate::db::PLUGIN_ASSETS@,
{
}

/// Every statement on the known IDs and on the log is the SQL of its purpose, and
/// carries the values that it was made with, as they are and in the order of its
/// columns.
pub proof fn law_statements_on_lookups(id: i64, hash: Seq<char>, result: Seq<char>)
    ensures
        check_telega_id_statement(id).sql
            == "SELECT 1 FROM known_users WHERE telegram_id = ? LIMIT 1"@,
        check_telega_id_statement(id).params == seq![Param::<Seq<char>>::Int(id)],
        save_telega_id_statement(id).sql
            == "INSERT OR IGNORE INTO known_users (telegram_id) VALUES (?)"@,
        save_telega_id_statement(id).params == seq![Param::<Seq<char>>::Int(id)],
        log_bot_user_statement(hash).sql
            == "INSERT INTO bot_users (user_hash) VALUES (?) ON CONFLICT(user_hash) DO UPDATE SET last_seen = datetime('now')"@,
        log_bot_user_statement(hash).params == seq![Param::Text(hash)],
        log_request_statement(hash, id, result).sql
            == "INSERT INTO requests_log (user_hash, queried_id, result) VALUES (?, ?, ?)"@,
        log_request_statement(hash, id, result).params == seq![
            Param::Text(hash),
            Param::Int(id),
            Param::Text(result),
        ],
{
}

/// So is every statement on the members of chats.
pub proof fn law_statements_on_members(chat_id: i64, user_id: i64)
    ensures
        track_chat_member_statement(chat_id, user_id).sql
            == "INSERT INTO chat_members (chat_id, user_id, is_active) VALUES (?, ?, TRUE) ON CONFLICT(chat_id, user_id) DO UPDATE SET is_active = TRUE"@,
        track_chat_member_statement(chat_id, user_id).params == seq![
            Param::<Seq<char>>::Int(chat_id),
            Param::Int(user_id),
        ],
        untrack_chat_member_statement(chat_id, user_id).sql
            == "UPDATE chat_members SET is_active = FALSE WHERE chat_id = ? AND user_id = ?"@,
        untrack_chat_member_statement(chat_id, user_id).params == seq![
            Param::<Seq<char>>::Int(chat_id),
            Param::Int(user_id),
        ],
        deactivate_chat_statement(chat_id).sql
            == "UPDATE chat_members SET is_active = FALSE WHERE chat_id = ?"@,
        deactivate_chat_statement(chat_id).params == seq![Param::<Seq<char>>::Int(chat_id)],
        get_active_chat_ids_statement().sql
            == "SELECT DISTINCT chat_id FROM chat_members WHERE is_active = TRUE"@,
        get_active_chat_ids_statement().params == Seq::<Param<Seq<char>>>::empty(),
        get_active_members_statement(chat_id).sql
            == "SELECT user_id FROM chat_members WHERE chat_id = ? AND is_active = TRUE"@,
        get_active_members_statement(chat_id).params == seq![Param::<Seq<char>>::Int(chat_id)],
{
}

/// So is every statement on API tokens.
pub proof fn law_statements_on_tokens(user_id: i64, token: Seq<char>)
    ensures
        insert_token_statement(user_id, token).sql
            == "INSERT OR IGNORE INTO api_tokens (user_id, api_token) VALUES (?, ?)"@,
        insert_token_statement(user_id, token).params == seq![
            Param::Int(user_id),
            Param::Text(token),
        ],
        select_token_statement(user_id).sql == "SELECT api_token FROM api_tokens WHERE user_id = ?"@,
        select_token_statement(user_id).params == seq![Param::<Seq<char>>::Int(user_id)],
        update_token_statement(token, user_id).sql
            == "UPDATE api_tokens SET api_token = ?, updated_at = datetime('now') WHERE user_id = ?"@,
        update_token_statement(token, user_id).params == seq![
            Param::Text(token),
            Param::Int(user_id),
        ],
        validate_user_token_statement(token).sql
            == "SELECT 1 FROM api_tokens WHERE api_token = ? LIMIT 1"@,
        validate_user_token_statement(token).params == seq![Param::Text(token)],
{
}

/// So is every statement on plugin assets.
pub proof fn law_statements_on_assets(name: Seq<char>, file_id: Seq<char>)
    ensures
        upsert_plugin_asset_statement(name, file_id).sql
            == "INSERT INTO plugin_assets (name, file_id) VALUES (?, ?) ON CONFLICT(name) DO UPDATE SET file_id = excluded.file_id, updated_at = datetime('now')"@,
        upsert_plugin_asset_statement(name, file_id).params == seq![
            Param::Text(name),
            Param::Text(file_id),
        ],
        get_plugin_assets_statement().sql == "SELECT name, file_id FROM plugin_assets ORDER BY name"@,
        get_plugin_assets_statement().params == Seq::<Param<Seq<char>>>::empty(),
        delete_plugin_asset_statement(name).sql == "DELETE FROM plugin_assets WHERE name = ?"@,
        delete_plugin_asset_statement(name).params == seq![Param::Text(name)],
{
}

}
