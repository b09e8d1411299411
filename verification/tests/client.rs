use telega_checker::api_client::{
    login_request, lookup_request, read_login, status_text, status_text_with, try_lookup,
    ApiClient, ApiError, AuthError, HttpReply, LookupError, LookupReply, LookupStep, LoginReply,
    MAX_RETRIES,
};
use telega_checker::bot_handler::CheckError;

fn answer(status: u16, ids: &[&str]) -> LookupReply {
    HttpReply::Received {
        status,
        body: "body".to_string(),
        parsed: Ok(ids.iter().map(|id| id.to_string()).collect()),
    }
}

fn login(status: u16, key: &str) -> LoginReply {
    HttpReply::Received { status, body: "body".to_string(), parsed: Ok(key.to_string()) }
}

/// What a lookup did, in order.
#[derive(Debug, PartialEq)]
enum Deed {
    Lookup(String),
    Login,
    Skip,
    Wait(u64),
}

/// Drives a lookup with the given answers. `intruder` replaces the session key
/// just before it is locked.
fn drive(
    client: &mut ApiClient,
    telegram_id: i64,
    mut lookups: Vec<LookupReply>,
    mut logins: Vec<LoginReply>,
    intruder: Option<&str>,
) -> (Result<bool, ApiError<String>>, Vec<Deed>) {
    lookups.reverse();
    logins.reverse();
    let mut deeds = Vec::new();
    let mut step = client.check_id(telegram_id);
    loop {
        step = match step {
            LookupStep::SnapshotSession(s) => s.resume(client.session_key.clone()),
            LookupStep::ReadSession(s) => s.resume(client.session_key.clone()),
            LookupStep::PostLookup(s) => {
                let request = s.request(&client.application_key);
                assert_eq!(request.url, "https://calls.okcdn.ru/api/vchat/getOkIdsByExternalIds");
                assert_eq!(request.fields[0].1, client.application_key);
                deeds.push(Deed::Lookup(request.fields[1].1.clone()));
                s.resume(lookups.pop().unwrap())
            }
            LookupStep::LockSession(s) => {
                if let Some(key) = intruder {
                    client.store_session(key.to_string());
                }
                s.refresh_session(&client.session_key)
            }
            LookupStep::ReleaseSession(s) => {
                deeds.push(Deed::Skip);
                s.resume()
            }
            LookupStep::PostLogin(s) => {
                let request = s.request(&client.application_key);
                assert_eq!(request.url, "https://calls.okcdn.ru/api/auth/anonymLogin");
                deeds.push(Deed::Login);
                s.resume(logins.pop().unwrap())
            }
            LookupStep::StoreSession(s) => {
                client.store_session(s.session_key.clone());
                s.resume()
            }
            LookupStep::Backoff(s) => {
                deeds.push(Deed::Wait(s.delay_ms));
                s.resume()
            }
            LookupStep::Done(result) => return (result, deeds),
        }
    }
}

fn client_with(session: Option<&str>) -> ApiClient {
    let mut client = ApiClient::new("KEY".to_string());
    if let Some(key) = session {
        client.store_session(key.to_string());
    }
    client
}

#[test]
fn forms_carry_compact_json() {
    let login = login_request("KEY");
    assert_eq!(login.url, "https://calls.okcdn.ru/api/auth/anonymLogin");
    assert_eq!(login.fields.len(), 2);
    assert_eq!(login.fields[0], ("application_key".to_string(), "KEY".to_string()));
    assert_eq!(login.fields[1].0, "session_data");
    assert_eq!(
        login.fields[1].1,
        "{\"client_type\":\"SDK_ANDROID\",\"client_version\":\"android_8\",\"device_id\":\"telega_checker_bot\",\"version\":2}"
    );
    let lookup = lookup_request("KEY", "S", 123456789);
    assert_eq!(lookup.url, "https://calls.okcdn.ru/api/vchat/getOkIdsByExternalIds");
    assert_eq!(lookup.fields.len(), 3);
    assert_eq!(lookup.fields[0], ("application_key".to_string(), "KEY".to_string()));
    assert_eq!(lookup.fields[1], ("session_key".to_string(), "S".to_string()));
    assert_eq!(lookup.fields[2].0, "externalIds");
    assert_eq!(lookup.fields[2].1, "[{\"id\":\"123456789\",\"ok_anonym\":false}]");
}

#[test]
fn forms_agree_with_the_json_crate() {
    let login = login_request("KEY");
    let mut data = serde_json::Map::new();
    data.insert("device_id".to_string(), serde_json::Value::from("telega_checker_bot"));
    data.insert("version".to_string(), serde_json::Value::from(2));
    data.insert("client_version".to_string(), serde_json::Value::from("android_8"));
    data.insert("client_type".to_string(), serde_json::Value::from("SDK_ANDROID"));
    assert_eq!(login.fields[1].1, serde_json::Value::Object(data).to_string());
}

#[test]
fn login_answers_are_read() {
    assert_eq!(read_login(login(200, "k")).unwrap(), "k");
    assert_eq!(read_login(login(299, "k")).unwrap(), "k");
    assert!(matches!(
        read_login(login(300, "k")),
        Err(AuthError::Status { status: 300, .. })
    ));
    assert!(matches!(
        read_login(login(199, "k")),
        Err(AuthError::Status { status: 199, .. })
    ));
    assert!(matches!(
        read_login(HttpReply::SendFailed("e".to_string())),
        Err(AuthError::Send(_))
    ));
    assert!(matches!(
        read_login(HttpReply::BodyFailed("e".to_string())),
        Err(AuthError::Read(_))
    ));
    let unparsed = HttpReply::Received {
        status: 200,
        body: "{}".to_string(),
        parsed: Err("missing field".to_string()),
    };
    assert!(matches!(read_login(unparsed), Err(AuthError::Parse(_))));
}

#[test]
fn lookup_answers_are_read() {
    assert!(try_lookup(12, answer(200, &["12"])).unwrap());
    assert!(try_lookup(12, answer(200, &["1", "12", "3"])).unwrap());
    assert!(!try_lookup(12, answer(200, &[])).unwrap());
    assert!(!try_lookup(12, answer(200, &["112", "012", " 12"])).unwrap());
    assert!(matches!(try_lookup(12, answer(429, &["12"])), Err(LookupError::RateLimited)));
    assert!(matches!(
        try_lookup(12, answer(401, &["12"])),
        Err(LookupError::Auth(ApiError::Status { status: 401, .. }))
    ));
    assert!(matches!(
        try_lookup(12, answer(403, &["12"])),
        Err(LookupError::Auth(ApiError::Status { status: 403, .. }))
    ));
    assert!(matches!(
        try_lookup(12, answer(500, &["12"])),
        Err(LookupError::Other(ApiError::Status { status: 500, .. }))
    ));
    assert!(matches!(
        try_lookup(12, HttpReply::SendFailed("e".to_string())),
        Err(LookupError::Other(ApiError::Send(_)))
    ));
    assert!(matches!(
        try_lookup(12, HttpReply::BodyFailed("e".to_string())),
        Err(LookupError::Other(ApiError::Read(_)))
    ));
    let unparsed = HttpReply::Received {
        status: 200,
        body: "[]".to_string(),
        parsed: Err("no object".to_string()),
    };
    assert!(matches!(
        try_lookup(12, unparsed),
        Err(LookupError::Other(ApiError::Parse(_)))
    ));
}

#[test]
fn authentication_replaces_the_session_or_changes_nothing() {
    let mut client = client_with(None);
    assert!(client.session_key.is_none());
    assert!(client.authenticate(login(200, "a")).is_ok());
    assert_eq!(client.session_key.as_deref(), Some("a"));
    assert!(client.authenticate(login(500, "b")).is_err());
    assert_eq!(client.session_key.as_deref(), Some("a"));
    assert_eq!(client.application_key, "KEY");
}

#[test]
fn a_lookup_asks_once_and_answers() {
    let mut client = client_with(Some("s"));
    let (result, deeds) = drive(&mut client, 7, vec![answer(200, &["7"])], vec![], None);
    assert!(result.unwrap());
    assert_eq!(deeds, vec![Deed::Lookup("s".to_string())]);
    let (result, _) = drive(&mut client, 8, vec![answer(200, &["7"])], vec![], None);
    assert!(!result.unwrap());
}

#[test]
fn an_expired_session_is_refreshed_once() {
    let mut client = client_with(Some("old"));
    let (result, deeds) = drive(
        &mut client,
        7,
        vec![answer(401, &[]), answer(200, &["7"])],
        vec![login(200, "new")],
        None,
    );
    assert!(result.unwrap());
    assert_eq!(
        deeds,
        vec![Deed::Lookup("old".to_string()), Deed::Login, Deed::Lookup("new".to_string())]
    );
    assert_eq!(client.session_key.as_deref(), Some("new"));
    let (result, deeds) = drive(
        &mut client,
        7,
        vec![answer(403, &[]), answer(403, &[])],
        vec![login(200, "newer")],
        None,
    );
    assert!(matches!(result, Err(ApiError::Status { status: 403, .. })));
    assert_eq!(deeds.len(), 3);
}

#[test]
fn a_missing_session_is_had_first() {
    let mut client = client_with(None);
    let (result, deeds) =
        drive(&mut client, 7, vec![answer(200, &[])], vec![login(200, "new")], None);
    assert!(!result.unwrap());
    assert_eq!(deeds, vec![Deed::Login, Deed::Lookup("new".to_string())]);
}

#[test]
fn a_session_that_someone_else_refreshed_is_used() {
    let mut client = client_with(Some("old"));
    let (result, deeds) = drive(
        &mut client,
        7,
        vec![answer(401, &[]), answer(200, &["7"])],
        vec![],
        Some("theirs"),
    );
    assert!(result.unwrap());
    assert_eq!(
        deeds,
        vec![Deed::Lookup("old".to_string()), Deed::Skip, Deed::Lookup("theirs".to_string())]
    );
}

#[test]
fn a_failed_refresh_ends_the_lookup() {
    let mut client = client_with(Some("old"));
    let (result, deeds) =
        drive(&mut client, 7, vec![answer(401, &[])], vec![login(503, "x")], None);
    assert!(matches!(
        result,
        Err(ApiError::Reauthentication(AuthError::Status { status: 503, .. }))
    ));
    assert_eq!(deeds, vec![Deed::Lookup("old".to_string()), Deed::Login]);
    assert_eq!(client.session_key.as_deref(), Some("old"));
}

#[test]
fn a_lasting_rate_limit_backs_off_and_gives_up() {
    let mut client = client_with(Some("s"));
    let replies = (0..5).map(|_| answer(429, &[])).collect();
    let (result, deeds) = drive(&mut client, 7, replies, vec![], None);
    assert!(matches!(
        result,
        Err(ApiError::RateLimited { telegram_id: 7, retries: MAX_RETRIES })
    ));
    assert_eq!(
        result.unwrap_err().message(),
        "Rate limited (HTTP 429) for ID 7 after 4 retries"
    );
    let delays: Vec<u64> = deeds
        .iter()
        .filter_map(|d| if let Deed::Wait(ms) = d { Some(*ms) } else { None })
        .collect();
    assert_eq!(delays, vec![1000, 2000, 4000, 8000]);
    assert_eq!(deeds.len(), 9);
}

#[test]
fn a_passing_rate_limit_is_waited_out() {
    let mut client = client_with(Some("s"));
    let replies = vec![answer(429, &[]), answer(429, &[]), answer(200, &["7"])];
    let (result, deeds) = drive(&mut client, 7, replies, vec![], None);
    assert!(result.unwrap());
    assert_eq!(deeds.len(), 5);
    assert_eq!(deeds[3], Deed::Wait(2000));
}

#[test]
fn other_failures_are_not_retried() {
    let mut client = client_with(Some("s"));
    let (result, deeds) = drive(&mut client, 7, vec![answer(500, &[])], vec![], None);
    assert!(matches!(result, Err(ApiError::Status { status: 500, .. })));
    assert_eq!(deeds.len(), 1);
    let lost = vec![HttpReply::SendFailed("down".to_string())];
    let (result, deeds) = drive(&mut client, 7, lost, vec![], None);
    assert!(matches!(result, Err(ApiError::Send(_))));
    assert_eq!(deeds.len(), 1);
}

#[test]
fn a_rate_limit_after_a_refresh_backs_off_too() {
    let mut client = client_with(Some("old"));
    let replies = vec![answer(401, &[]), answer(429, &[]), answer(200, &[])];
    let (result, deeds) = drive(&mut client, 7, replies, vec![login(200, "new")], None);
    assert!(!result.unwrap());
    assert_eq!(
        deeds,
        vec![
            Deed::Lookup("old".to_string()),
            Deed::Login,
            Deed::Lookup("new".to_string()),
            Deed::Wait(1000),
            Deed::Lookup("new".to_string()),
        ]
    );
}

#[test]
fn statuses_read_as_the_http_crate_writes_them() {
    for status in 100..1000u16 {
        let code = reqwest::StatusCode::from_u16(status).unwrap();
        assert_eq!(status_text(status), code.to_string());
    }
    assert_eq!(status_text(403), "403 Forbidden");
    assert_eq!(status_text(599), "599 <unknown status code>");
    assert_eq!(status_text_with(200, Some("Fine")), "200 Fine");
    assert_eq!(status_text_with(200, None), "200 <unknown status code>");
}

#[test]
fn failures_read_without_their_causes() {
    let cause = || "cause".to_string();
    let logins: Vec<(AuthError<String>, &str)> = vec![
        (AuthError::Send(cause()), "Failed to send auth request"),
        (AuthError::Read(cause()), "Failed to read auth response body"),
        (
            AuthError::Status { status: 500, body: "oops".to_string() },
            "Auth failed with status 500 Internal Server Error: oops",
        ),
        (AuthError::Parse(cause()), "Failed to parse auth response JSON"),
    ];
    for (error, text) in logins {
        assert_eq!(error.message(), text);
    }
    let lookups: Vec<(ApiError<String>, &str)> = vec![
        (ApiError::NoSession, "No session_key available — need to authenticate first"),
        (ApiError::Send(cause()), "Failed to send lookup request"),
        (ApiError::Read(cause()), "Failed to read lookup response body"),
        (
            ApiError::Status { status: 403, body: "{}".to_string() },
            "Lookup API returned status 403 Forbidden: {}",
        ),
        (ApiError::Parse(cause()), "Failed to parse lookup response JSON"),
        (
            ApiError::Reauthentication(AuthError::Send(cause())),
            "Failed to re-authenticate after expired session",
        ),
        (
            ApiError::RateLimited { telegram_id: -5, retries: 2 },
            "Rate limited (HTTP 429) for ID -5 after 2 retries",
        ),
    ];
    for (error, text) in lookups {
        assert_eq!(error.message(), text);
        assert_eq!(CheckError::Api(error).message(), format!("Lookup failed: {}", text));
    }
    assert_eq!(
        CheckError::Database("locked".to_string()).message(),
        "Lookup failed: locked"
    );
}
