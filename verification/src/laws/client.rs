//! What is posted to the API, and what its answers mean.
use crate::api_client::{
    canonical_reason_of, login_form, login_outcome, lookup_form, lookup_outcome, status_text_of,
    status_with_reason, ApiError, AuthError, HttpReply, LookupError,
};
use crate::bot_handler::{outcome_of, CheckError, Outcome};
use crate::json::{object_text, scalar_text, Scalar};
use crate::text::{decimal, join};
use vstd::prelude::*;

verus! {

proof fn lemma_join_two(a: Seq<char>, b: Seq<char>, separator: Seq<char>)
    ensures
        join(seq![a, b], separator) == a + separator + b,
{
    assert(seq![a, b].drop_last() =~= seq![a]);
    assert(join(seq![a], separator) =~= a);
}

/// A lookup is asked for at the address of the API, with both keys as they are,
/// and for exactly the given ID, which stands in the JSON between quotes.
pub proof fn law_lookup_asks_for_the_id(
    application_key: Seq<char>,
    session_key: Seq<char>,
    telegram_id: i64,
)
    ensures
        ({
            let form = lookup_form(application_key, session_key, telegram_id);
            &&& form.url == "https://calls.okcdn.ru"@ + "/api/vchat/getOkIdsByExternalIds"@
            &&& form.fields.len() == 3
            &&& form.fields[0] == ("application_key"@, application_key)
            &&& form.fields[1] == ("session_key"@, session_key)
            &&& form.fields[2].0 == "externalIds"@
            &&& form.fields[2].1 == seq!['[', '{', '"'] + "id"@ + seq!['"', ':', '"'] + decimal(
                telegram_id as int,
            ) + seq!['"', ',', '"'] + "ok_anonym"@ + seq!['"', ':'] + "false"@ + seq!['}', ']']
        }),
{
    let id = decimal(telegram_id as int);
    let a = seq!['"'] + "id"@ + seq!['"'] + seq![':'] + (seq!['"'] + id + seq!['"']);
    let b = seq!['"'] + "ok_anonym"@ + seq!['"'] + seq![':'] + "false"@;
    let fields = crate::api_client::external_id_fields(telegram_id);
    let parts = fields.map_values(
        |f: (Seq<char>, Scalar<Seq<char>>)|
            crate::json::quoted(f.0) + seq![':'] + scalar_text(f.1),
    );
    assert(parts =~= seq![a, b]);
    lemma_join_two(a, b, seq![',']);
    assert(object_text(fields) == seq!['{'] + (a + seq![','] + b) + seq!['}']);
    assert(seq!['['] + object_text(fields) + seq![']'] =~= seq!['[', '{', '"'] + "id"@
        + seq!['"', ':', '"'] + id + seq!['"', ',', '"'] + "ok_anonym"@ + seq!['"', ':']
        + "false"@ + seq!['}', ']']);
}

/// A login is asked for at the address of the API, with the application key as it
/// is, and always with the same description of the client.
pub proof fn law_login_carries_the_key(application_key: Seq<char>, other_key: Seq<char>)
    ensures
        ({
            let form = login_form(application_key);
            &&& form.url == "https://calls.okcdn.ru"@ + "/api/auth/anonymLogin"@
            &&& form.fields.len() == 2
            &&& form.fields[0] == ("application_key"@, application_key)
            &&& form.fields[1].0 == "session_data"@
            &&& form.fields[1].1 == object_text(
                seq![
                    ("client_type"@, Scalar::Text("SDK_ANDROID"@)),
                    ("client_version"@, Scalar::Text("android_8"@)),
                    ("device_id"@, Scalar::Text("telega_checker_bot"@)),
                    ("version"@, Scalar::Number(2)),
                ],
            )
            &&& login_form(other_key).fields[1] == form.fields[1]
        }),
{
    assert(crate::api_client::session_data_fields() =~= seq![
        ("client_type"@, Scalar::Text("SDK_ANDROID"@)),
        ("client_version"@, Scalar::Text("android_8"@)),
        ("device_id"@, Scalar::Text("telega_checker_bot"@)),
        ("version"@, Scalar::Number(2)),
    ]);
}

/// A successful answer that lists IDs finds an ID if and only if its decimal
/// notation is one of them, whatever else is listed.
pub proof fn law_listed_ids_are_found(
    telegram_id: i64,
    status: u16,
    body: Seq<char>,
    ids: Seq<Seq<char>>,
)
    requires
        200 <= status <= 299,
    ensures
        lookup_outcome(HttpReply::Received { status, body, parsed: Ok(ids) }, telegram_id) is Ok,
        lookup_outcome(HttpReply::Received { status, body, parsed: Ok(ids) }, telegram_id)->Ok_0
            <==> exists|i: int| 0 <= i < ids.len() && #[trigger] ids[i] == decimal(
            telegram_id as int,
        ),
{
}

/// What a list says of an ID does not depend on the status of success, on the
/// body, or on what else is listed.
pub proof fn law_other_entries_do_not_matter(
    telegram_id: i64,
    other_id: i64,
    status: u16,
    other_status: u16,
    body: Seq<char>,
    ids: Seq<Seq<char>>,
)
    requires
        200 <= status <= 299,
        200 <= other_status <= 299,
        telegram_id != other_id,
    ensures
        lookup_outcome(HttpReply::Received { status, body, parsed: Ok(ids) }, telegram_id)
            == lookup_outcome(
            HttpReply::Received {
                status: other_status,
                body: Seq::empty(),
                parsed: Ok(ids.push(decimal(other_id as int))),
            },
            telegram_id,
        ),
        lookup_outcome(
            HttpReply::Received { status, body, parsed: Ok(ids.push(decimal(telegram_id as int))) },
            telegram_id,
        ) == Ok::<bool, LookupError<Seq<char>>>(true),
{
    if decimal(telegram_id as int) == decimal(other_id as int) {
        crate::text::law_decimal_injective(telegram_id as int, other_id as int);
    }
    let more = ids.push(decimal(other_id as int));
    if ids.contains(decimal(telegram_id as int)) {
        let i = ids.index_of(decimal(telegram_id as int));
        assert(more[i] == decimal(telegram_id as int));
    }
    if more.contains(decimal(telegram_id as int)) {
        let i = more.index_of(decimal(telegram_id as int));
        assert(ids[i] == decimal(telegram_id as int));
    }
    let with = ids.push(decimal(telegram_id as int));
    assert(with[with.len() - 1] == decimal(telegram_id as int));
}

/// Without success, HTTP 429 is a rate limit, 401 and 403 are auth failures, and
/// any other status is another failure; each but the rate limit reports the
/// status and the body.
pub proof fn law_statuses_are_told_apart(
    telegram_id: i64,
    status: u16,
    body: Seq<char>,
    parsed: Result<Seq<Seq<char>>, Seq<char>>,
)
    requires
        status < 200 || status > 299,
    ensures
        ({
            let outcome = lookup_outcome(
                HttpReply::Received { status, body, parsed },
                telegram_id,
            );
            &&& status == 429 ==> outcome == Err::<bool, LookupError<Seq<char>>>(
                LookupError::RateLimited,
            )
            &&& status == 401 || status == 403 ==> outcome == Err::<bool, LookupError<Seq<char>>>(
                LookupError::Auth(ApiError::Status { status, body }),
            )
            &&& status != 401 && status != 403 && status != 429 ==> outcome == Err::<
                bool,
                LookupError<Seq<char>>,
            >(LookupError::Other(ApiError::Status { status, body }))
        }),
{
}

/// A request that could not be sent, an answer that could not be read and one
/// that does not parse are other failures, and each keeps its cause.
pub proof fn law_lost_answers_are_failures(
    telegram_id: i64,
    status: u16,
    body: Seq<char>,
    cause: Seq<char>,
)
    requires
        200 <= status <= 299,
    ensures
        lookup_outcome(HttpReply::SendFailed(cause), telegram_id) == Err::<
            bool,
            LookupError<Seq<char>>,
        >(LookupError::Other(ApiError::Send(cause))),
        lookup_outcome(HttpReply::BodyFailed(cause), telegram_id) == Err::<
            bool,
            LookupError<Seq<char>>,
        >(LookupError::Other(ApiError::Read(cause))),
        lookup_outcome(HttpReply::Received { status, body, parsed: Err(cause) }, telegram_id)
            == Err::<bool, LookupError<Seq<char>>>(LookupError::Other(ApiError::Parse(cause))),
{
}

/// A login gives the very key of a successful answer that parses, and any other
/// answer is a failure that keeps its cause.
pub proof fn law_logins_give_the_key(
    status: u16,
    body: Seq<char>,
    key: Seq<char>,
    cause: Seq<char>,
    parsed: Result<Seq<char>, Seq<char>>,
)
    ensures
        200 <= status <= 299 ==> login_outcome(
            HttpReply::Received { status, body, parsed: Ok(key) },
        ) == Ok::<Seq<char>, AuthError<Seq<char>>>(key),
        200 <= status <= 299 ==> login_outcome(
            HttpReply::Received { status, body, parsed: Err(cause) },
        ) == Err::<Seq<char>, AuthError<Seq<char>>>(AuthError::Parse(cause)),
        status < 200 || status > 299 ==> login_outcome(
            HttpReply::Received { status, body, parsed },
        ) == Err::<Seq<char>, AuthError<Seq<char>>>(AuthError::Status { status, body }),
        login_outcome(HttpReply::SendFailed(cause)) == Err::<Seq<char>, AuthError<Seq<char>>>(
            AuthError::Send(cause),
        ),
        login_outcome(HttpReply::BodyFailed(cause)) == Err::<Seq<char>, AuthError<Seq<char>>>(
            AuthError::Read(cause),
        ),
{
}

/// A status reads as its number, a space, and its reason phrase; one without a
/// phrase says so.
pub proof fn law_statuses_read_with_their_reason(status: u16, reason: Seq<char>)
    ensures
        status_with_reason(status, Some(reason)) == decimal(status as int) + " "@ + reason,
        status_with_reason(status, None) == decimal(status as int) + " "@
            + "<unknown status code>"@,
        status_text_of(status) == status_with_reason(status, canonical_reason_of(status)),
{
}

/// A failed login reads as what failed, whatever caused it; a status and a body
/// are quoted in full.
pub proof fn law_failed_logins_read(cause: Seq<char>, status: u16, body: Seq<char>)
    ensures
        AuthError::Send(cause).text() == "Failed to send auth request"@,
        AuthError::Read(cause).text() == "Failed to read auth response body"@,
        AuthError::Parse(cause).text() == "Failed to parse auth response JSON"@,
        (AuthError::Status { status, body }).text() == "Auth failed with status "@
            + status_text_of(status) + ": "@ + body,
{
}

/// A failed lookup reads as what failed, whatever caused it; a status, a body, an
/// ID and a number of retries are quoted in full. Where it is reported, the text
/// stands behind `Lookup failed: `, as that of a failure of the database does.
pub proof fn law_failed_lookups_read(
    cause: Seq<char>,
    status: u16,
    body: Seq<char>,
    login: AuthError<Seq<char>>,
    telegram_id: i64,
    retries: u32,
    error: ApiError<Seq<char>>,
)
    ensures
        ApiError::<Seq<char>>::NoSession.text()
            == "No session_key available — need to authenticate first"@,
        ApiError::Send(cause).text() == "Failed to send lookup request"@,
        ApiError::Read(cause).text() == "Failed to read lookup response body"@,
        ApiError::Parse(cause).text() == "Failed to parse lookup response JSON"@,
        ApiError::Reauthentication(login).text()
            == "Failed to re-authenticate after expired session"@,
        (ApiError::Status { status, body }).text() == "Lookup API returned status "@
            + status_text_of(status) + ": "@ + body,
        (ApiError::<Seq<char>>::RateLimited { telegram_id, retries }).text()
            == "Rate limited (HTTP 429) for ID "@ + decimal(telegram_id as int) + " after "@
            + decimal(retries as int) + " retries"@,
        CheckError::Database(cause).text() == "Lookup failed: "@ + cause,
        CheckError::Api(error).text() == "Lookup failed: "@ + error.text(),
{
}

/// A lookup that was answered found the ID or not, as the answer says; one that
/// failed came to neither.
pub proof fn law_outcomes_are_the_results<E>(result: Result<bool, E>)
    ensures
        outcome_of(result) == Outcome::Found <==> (result matches Ok(found) && found),
        outcome_of(result) == Outcome::NotFound <==> (result matches Ok(found) && !found),
        outcome_of(result) == Outcome::Failed <==> result is Err,
{
}

}
