//! The client of the call infrastructure's API: what it posts, how it reads
//! the answers, and how a lookup goes on after each of them.
//!
//! A lookup is a [`LookupStep`] that names what has to be done next. Whoever
//! drives it does that and hands the outcome to `resume`, which gives the next
//! step, until the step is [`LookupStep::Done`].
use crate::json::{
    fields_plain, fields_view, json_object, names_ascend, object_text, precedes, Scalar,
};
use crate::text::{
    between, decimal, i64_text, optional_view, same_optional_text, texts_view, u64_text,
};
use vstd::prelude::*;

verus! {

/// Maximum number of retries when rate-limited (HTTP 429).
pub const MAX_RETRIES: u32 = 4;

/// Base delay for exponential backoff (doubles each retry: 1s, 2s, 4s, 8s).
pub const BASE_DELAY_MS: u64 = 1000;

/// Where the API lives.
pub const BASE_URL: &'static str = "https://calls.okcdn.ru";

// ---------------------------------------------------------------------------
// Requests
// ---------------------------------------------------------------------------

/// A form to post.
pub struct FormRequest {
    pub url: String,
    pub fields: Vec<(String, String)>,
}

/// What a [`FormRequest`] holds.
pub struct FormView {
    pub url: Seq<char>,
    pub fields: Seq<(Seq<char>, Seq<char>)>,
}

impl View for FormRequest {
    type V = FormView;

    open spec fn view(&self) -> FormView {
        FormView {
            url: self.url@,
            fields: self.fields@.map_values(|f: (String, String)| (f.0@, f.1@)),
        }
    }
}

/// The description of this client that a login carries.
pub open spec fn session_data_fields() -> Seq<(Seq<char>, Scalar<Seq<char>>)> {
    seq![
        ("client_type"@, Scalar::Text("SDK_ANDROID"@)),
        ("client_version"@, Scalar::Text("android_8"@)),
        ("device_id"@, Scalar::Text("telega_checker_bot"@)),
        ("version"@, Scalar::Number(2)),
    ]
}

/// The login form: the application key, and the client's description as JSON.
pub open spec fn login_form(application_key: Seq<char>) -> FormView {
    FormView {
        url: BASE_URL@ + "/api/auth/anonymLogin"@,
        fields: seq![
            ("application_key"@, application_key),
            ("session_data"@, object_text(session_data_fields())),
        ],
    }
}

/// The JSON object that asks for one Telegram ID.
pub open spec fn external_id_fields(telegram_id: i64) -> Seq<(Seq<char>, Scalar<Seq<char>>)> {
    seq![
        ("id"@, Scalar::Text(decimal(telegram_id as int))),
        ("ok_anonym"@, Scalar::Flag(false)),
    ]
}

/// The lookup form: both keys, and the IDs that are asked for as a JSON array.
pub open spec fn lookup_form(
    application_key: Seq<char>,
    session_key: Seq<char>,
    telegram_id: i64,
) -> FormView {
    FormView {
        url: BASE_URL@ + "/api/vchat/getOkIdsByExternalIds"@,
        fields: seq![
            ("application_key"@, application_key),
            ("session_key"@, session_key),
            ("externalIds"@, seq!['['] + object_text(external_id_fields(telegram_id)) + seq![']']),
        ],
    }
}

proof fn lemma_session_data_is_plain()
    ensures
        names_ascend(session_data_fields()),
        fields_plain(session_data_fields()),
{
    reveal_strlit("client_type");
    reveal_strlit("client_version");
    reveal_strlit("device_id");
    reveal_strlit("version");
    reveal_strlit("SDK_ANDROID");
    reveal_strlit("android_8");
    reveal_strlit("telega_checker_bot");
    let fields = session_data_fields();
    assert forall|i: int, j: int| 0 <= i < j < fields.len() implies precedes(
        #[trigger] fields[i].0,
        #[trigger] fields[j].0,
    ) by {
        if i == 0 && j == 1 {
            assert(fields[0].0.take(7) =~= fields[1].0.take(7));
        } else {
            assert(fields[i].0.take(0) =~= fields[j].0.take(0));
        }
    }
}

proof fn lemma_external_id_is_plain(telegram_id: i64)
    ensures
        names_ascend(external_id_fields(telegram_id)),
        fields_plain(external_id_fields(telegram_id)),
{
    reveal_strlit("id");
    reveal_strlit("ok_anonym");
    let fields = external_id_fields(telegram_id);
    assert(fields[0].0.take(0) =~= fields[1].0.take(0));
    crate::text::lemma_decimal_is_graphic(telegram_id as int);
}

/// Builds the login form.
pub fn login_request(application_key: &str) -> (request: FormRequest)
    ensures
        request@ == login_form(application_key@),
{
    let mut described: Vec<(String, Scalar<String>)> = Vec::new();
    described.push(("client_type".to_owned(), Scalar::Text("SDK_ANDROID".to_owned())));
    described.push(("client_version".to_owned(), Scalar::Text("android_8".to_owned())));
    described.push(("device_id".to_owned(), Scalar::Text("telega_checker_bot".to_owned())));
    described.push(("version".to_owned(), Scalar::Number(2)));
    proof {
        lemma_session_data_is_plain();
        assert(fields_view(described@) =~= session_data_fields());
    }
    let session_data = json_object(described);

    let url = BASE_URL.to_owned().concat("/api/auth/anonymLogin");
    let mut fields: Vec<(String, String)> = Vec::new();
    fields.push(("application_key".to_owned(), application_key.to_owned()));
    fields.push(("session_data".to_owned(), session_data));
    let request = FormRequest { url, fields };
    assert(request@.fields =~= login_form(application_key@).fields);
    request
}

/// Builds the lookup form for one Telegram ID.
pub fn lookup_request(application_key: &str, session_key: &str, telegram_id: i64) -> (request:
    FormRequest)
    ensures
        request@ == lookup_form(application_key@, session_key@, telegram_id),
{
    let mut asked: Vec<(String, Scalar<String>)> = Vec::new();
    asked.push(("id".to_owned(), Scalar::Text(i64_text(telegram_id))));
    asked.push(("ok_anonym".to_owned(), Scalar::Flag(false)));
    proof {
        lemma_external_id_is_plain(telegram_id);
        assert(fields_view(asked@) =~= external_id_fields(telegram_id));
    }
    let object = json_object(asked);
    let mut external_ids = String::new();
    external_ids.push('[');
    external_ids.append(object.as_str());
    external_ids.push(']');
    assert(external_ids@ =~= seq!['['] + object@ + seq![']']);

    let url = BASE_URL.to_owned().concat("/api/vchat/getOkIdsByExternalIds");
    let mut fields: Vec<(String, String)> = Vec::new();
    fields.push(("application_key".to_owned(), application_key.to_owned()));
    fields.push(("session_key".to_owned(), session_key.to_owned()));
    fields.push(("externalIds".to_owned(), external_ids));
    let request = FormRequest { url, fields };
    assert(request@.fields =~= lookup_form(application_key@, session_key@, telegram_id).fields);
    request
}

// ---------------------------------------------------------------------------
// Answers
// ---------------------------------------------------------------------------

/// What came back of a posted form. `T` is what the body is expected to hold;
/// `S` is `String` in code and `Seq<char>` in contracts.
#[derive(Debug)]
pub enum HttpReply<S, T> {
    /// The request could not be sent.
    SendFailed(S),
    /// The body of the answer could not be read.
    BodyFailed(S),
    /// An answer, with its body and what the body parses to.
    Received { status: u16, body: S, parsed: Result<T, S> },
}

/// The answer to a login: the session key.
pub type LoginReply = HttpReply<String, String>;

/// The answer to a lookup: the IDs that the infrastructure knows.
pub type LookupReply = HttpReply<String, Vec<String>>;

impl View for HttpReply<String, String> {
    type V = HttpReply<Seq<char>, Seq<char>>;

    open spec fn view(&self) -> HttpReply<Seq<char>, Seq<char>> {
        match *self {
            HttpReply::SendFailed(e) => HttpReply::SendFailed(e@),
            HttpReply::BodyFailed(e) => HttpReply::BodyFailed(e@),
            HttpReply::Received { status, body, parsed } => HttpReply::Received {
                status,
                body: body@,
                parsed: match parsed {
                    Ok(key) => Ok(key@),
                    Err(e) => Err(e@),
                },
            },
        }
    }
}

impl View for HttpReply<String, Vec<String>> {
    type V = HttpReply<Seq<char>, Seq<Seq<char>>>;

    open spec fn view(&self) -> HttpReply<Seq<char>, Seq<Seq<char>>> {
        match *self {
            HttpReply::SendFailed(e) => HttpReply::SendFailed(e@),
            HttpReply::BodyFailed(e) => HttpReply::BodyFailed(e@),
            HttpReply::Received { status, body, parsed } => HttpReply::Received {
                status,
                body: body@,
                parsed: match parsed {
                    Ok(ids) => Ok(texts_view(ids@)),
                    Err(e) => Err(e@),
                },
            },
        }
    }
}

/// Why a login failed.
#[derive(Debug)]
pub enum AuthError<S> {
    Send(S),
    Read(S),
    Status { status: u16, body: S },
    Parse(S),
}

/// Why a lookup failed.
#[derive(Debug)]
pub enum ApiError<S> {
    /// There is no session key: the client has to authenticate first.
    NoSession,
    Send(S),
    Read(S),
    Status { status: u16, body: S },
    Parse(S),
    /// The session had expired, and logging in again failed.
    Reauthentication(AuthError<S>),
    /// The API kept answering HTTP 429.
    RateLimited { telegram_id: i64, retries: u32 },
}

/// Distinguishes auth failures (worth retrying with a fresh session) from
/// other API errors (to be passed on as they are).
#[derive(Debug)]
pub enum LookupError<S> {
    /// 401/403 or no session: retry after a refresh.
    Auth(ApiError<S>),
    /// 429: back off and retry.
    RateLimited,
    /// Any other failure: no refresh.
    Other(ApiError<S>),
}

impl View for AuthError<String> {
    type V = AuthError<Seq<char>>;

    open spec fn view(&self) -> AuthError<Seq<char>> {
        match *self {
            AuthError::Send(e) => AuthError::Send(e@),
            AuthError::Read(e) => AuthError::Read(e@),
            AuthError::Status { status, body } => AuthError::Status { status, body: body@ },
            AuthError::Parse(e) => AuthError::Parse(e@),
        }
    }
}

impl View for ApiError<String> {
    type V = ApiError<Seq<char>>;

    open spec fn view(&self) -> ApiError<Seq<char>> {
        match *self {
            ApiError::NoSession => ApiError::NoSession,
            ApiError::Send(e) => ApiError::Send(e@),
            ApiError::Read(e) => ApiError::Read(e@),
            ApiError::Status { status, body } => ApiError::Status { status, body: body@ },
            ApiError::Parse(e) => ApiError::Parse(e@),
            ApiError::Reauthentication(e) => ApiError::Reauthentication(e@),
            ApiError::RateLimited { telegram_id, retries } => ApiError::RateLimited {
                telegram_id,
                retries,
            },
        }
    }
}

impl View for LookupError<String> {
    type V = LookupError<Seq<char>>;

    open spec fn view(&self) -> LookupError<Seq<char>> {
        match *self {
            LookupError::Auth(e) => LookupError::Auth(e@),
            LookupError::RateLimited => LookupError::RateLimited,
            LookupError::Other(e) => LookupError::Other(e@),
        }
    }
}

/// Whether an HTTP status reports success.
pub open spec fn is_success(status: u16) -> bool {
    200 <= status < 300
}

/// What an answer to a login means: the session key of a successful answer
/// that parses, else why there is none.
pub open spec fn login_outcome(reply: HttpReply<Seq<char>, Seq<char>>) -> Result<
    Seq<char>,
    AuthError<Seq<char>>,
> {
    match reply {
        HttpReply::SendFailed(e) => Err(AuthError::Send(e)),
        HttpReply::BodyFailed(e) => Err(AuthError::Read(e)),
        HttpReply::Received { status, body, parsed } => if !is_success(status) {
            Err(AuthError::Status { status, body })
        } else {
            match parsed {
                Ok(key) => Ok(key),
                Err(e) => Err(AuthError::Parse(e)),
            }
        },
    }
}

/// What an answer to a lookup means: whether the ID is among those that a
/// successful answer lists, else which kind of failure it is.
pub open spec fn lookup_outcome(
    reply: HttpReply<Seq<char>, Seq<Seq<char>>>,
    telegram_id: i64,
) -> Result<bool, LookupError<Seq<char>>> {
    match reply {
        HttpReply::SendFailed(e) => Err(LookupError::Other(ApiError::Send(e))),
        HttpReply::BodyFailed(e) => Err(LookupError::Other(ApiError::Read(e))),
        HttpReply::Received { status, body, parsed } => if is_success(status) {
            match parsed {
                Ok(ids) => Ok(ids.contains(decimal(telegram_id as int))),
                Err(e) => Err(LookupError::Other(ApiError::Parse(e))),
            }
        } else if status == 429 {
            Err(LookupError::RateLimited)
        } else if status == 401 || status == 403 {
            Err(LookupError::Auth(ApiError::Status { status, body }))
        } else {
            Err(LookupError::Other(ApiError::Status { status, body }))
        },
    }
}

/// Reads an answer to a login.
pub fn read_login(reply: LoginReply) -> (outcome: Result<String, AuthError<String>>)
    ensures
        login_outcome(reply@) matches Ok(key) ==> (outcome matches Ok(k) && k@ == key),
        login_outcome(reply@) matches Err(e) ==> (outcome matches Err(x) && x@ == e),
{
    match reply {
        HttpReply::SendFailed(e) => Err(AuthError::Send(e)),
        HttpReply::BodyFailed(e) => Err(AuthError::Read(e)),
        HttpReply::Received { status, body, parsed } => {
            if status < 200 || status >= 300 {
                return Err(AuthError::Status { status, body });
            }
            match parsed {
                Ok(key) => Ok(key),
                Err(e) => Err(AuthError::Parse(e)),
            }
        },
    }
}

/// Whether `ids` lists `id`.
fn lists(ids: &Vec<String>, id: &String) -> (found: bool)
    ensures
        found == texts_view(ids@).contains(id@),
{
    let mut i: usize = 0;
    while i < ids.len()
        invariant
            i <= ids@.len(),
            forall|j: int| 0 <= j < i ==> texts_view(ids@)[j] != id@,
        decreases ids@.len() - i,
    {
        if ids[i] == *id {
            assert(texts_view(ids@)[i as int] == id@);
            return true;
        }
        i = i + 1;
    }
    false
}

/// Reads an answer to a lookup of `telegram_id`.
pub fn try_lookup(telegram_id: i64, reply: LookupReply) -> (outcome: Result<
    bool,
    LookupError<String>,
>)
    ensures
        lookup_outcome(reply@, telegram_id) matches Ok(found) ==> outcome == Ok::<
            bool,
            LookupError<String>,
        >(found),
        lookup_outcome(reply@, telegram_id) matches Err(e) ==> (outcome matches Err(x) && x@ == e),
{
    match reply {
        HttpReply::SendFailed(e) => Err(LookupError::Other(ApiError::Send(e))),
        HttpReply::BodyFailed(e) => Err(LookupError::Other(ApiError::Read(e))),
        HttpReply::Received { status, body, parsed } => {
            if status < 200 || status >= 300 {
                if status == 429 {
                    return Err(LookupError::RateLimited);
                }
                let error = ApiError::Status { status, body };
                return if status == 401 || status == 403 {
                    Err(LookupError::Auth(error))
                } else {
                    Err(LookupError::Other(error))
                };
            }
            match parsed {
                Ok(ids) => {
                    let target = i64_text(telegram_id);
                    Ok(lists(&ids, &target))
                },
                Err(e) => Err(LookupError::Other(ApiError::Parse(e))),
            }
        },
    }
}

// ---------------------------------------------------------------------------
// How failures read
// ---------------------------------------------------------------------------

/// The reason phrase that `StatusCode::canonical_reason` knows for a status.
pub uninterp spec fn canonical_reason_of(status: u16) -> Option<Seq<char>>;

/// `reqwest::StatusCode::canonical_reason` on the code that
/// `reqwest::StatusCode::from_u16` makes of `status`: the standard reason
/// phrase of the status, which is only named. There is none for a number that
/// is no status, or for a status without a standard phrase.
#[verifier::external_body]
fn canonical_reason(status: u16) -> (reason: Option<&'static str>)
    ensures
        (match reason {
            Some(r) => Some(r@),
            None => None,
        }) == canonical_reason_of(status),
{
    reqwest::StatusCode::from_u16(status).ok().and_then(|code| code.canonical_reason())
}

/// A status and its reason phrase, as one text.
pub open spec fn status_with_reason(status: u16, reason: Option<Seq<char>>) -> Seq<char> {
    decimal(status as int) + " "@ + match reason {
        Some(r) => r,
        None => "<unknown status code>"@,
    }
}

/// Writes a status and its reason phrase.
pub fn status_text_with(status: u16, reason: Option<&str>) -> (text: String)
    ensures
        text@ == status_with_reason(
            status,
            match reason {
                Some(r) => Some(r@),
                None => None,
            },
        ),
{
    let mut text = u64_text(status as u64);
    text.append(" ");
    match reason {
        Some(r) => text.append(r),
        None => text.append("<unknown status code>"),
    }
    text
}

/// How a status reads.
pub open spec fn status_text_of(status: u16) -> Seq<char> {
    status_with_reason(status, canonical_reason_of(status))
}

/// Writes how a status reads, such as `403 Forbidden`.
pub fn status_text(status: u16) -> (text: String)
    ensures
        text@ == status_text_of(status),
{
    status_text_with(status, canonical_reason(status))
}

/// Writes how an answer with a status that is no success reads.
fn unsuccessful(before: &str, status: u16, body: &String) -> (text: String)
    ensures
        text@ == before@ + status_text_of(status) + ": "@ + body@,
{
    let mut text = before.to_owned();
    let code = status_text(status);
    text.append(code.as_str());
    text.append(": ");
    text.append(body.as_str());
    text
}

impl AuthError<Seq<char>> {
    /// How a failed login reads. What caused it to fail is not part of it.
    pub open spec fn text(self) -> Seq<char> {
        match self {
            AuthError::Send(_) => "Failed to send auth request"@,
            AuthError::Read(_) => "Failed to read auth response body"@,
            AuthError::Status { status, body } => "Auth failed with status "@ + status_text_of(
                status,
            ) + ": "@ + body,
            AuthError::Parse(_) => "Failed to parse auth response JSON"@,
        }
    }
}

impl AuthError<String> {
    /// How the failed login reads.
    pub fn message(&self) -> (text: String)
        ensures
            text@ == self@.text(),
    {
        match self {
            AuthError::Send(_) => "Failed to send auth request".to_owned(),
            AuthError::Read(_) => "Failed to read auth response body".to_owned(),
            AuthError::Status { status, body } => unsuccessful(
                "Auth failed with status ",
                *status,
                body,
            ),
            AuthError::Parse(_) => "Failed to parse auth response JSON".to_owned(),
        }
    }
}

impl ApiError<Seq<char>> {
    /// How a failed lookup reads. What caused it to fail is not part of it.
    pub open spec fn text(self) -> Seq<char> {
        match self {
            ApiError::NoSession => "No session_key available — need to authenticate first"@,
            ApiError::Send(_) => "Failed to send lookup request"@,
            ApiError::Read(_) => "Failed to read lookup response body"@,
            ApiError::Status { status, body } => "Lookup API returned status "@ + status_text_of(
                status,
            ) + ": "@ + body,
            ApiError::Parse(_) => "Failed to parse lookup response JSON"@,
            ApiError::Reauthentication(_) => "Failed to re-authenticate after expired session"@,
            ApiError::RateLimited { telegram_id, retries } => "Rate limited (HTTP 429) for ID "@
                + decimal(telegram_id as int) + " after "@ + decimal(retries as int) + " retries"@,
        }
    }
}

impl ApiError<String> {
    /// How the failed lookup reads.
    pub fn message(&self) -> (text: String)
        ensures
            text@ == self@.text(),
    {
        match self {
            ApiError::NoSession =>
                "No session_key available — need to authenticate first".to_owned(),
            ApiError::Send(_) => "Failed to send lookup request".to_owned(),
            ApiError::Read(_) => "Failed to read lookup response body".to_owned(),
            ApiError::Status { status, body } => unsuccessful(
                "Lookup API returned status ",
                *status,
                body,
            ),
            ApiError::Parse(_) => "Failed to parse lookup response JSON".to_owned(),
            ApiError::Reauthentication(_) =>
                "Failed to re-authenticate after expired session".to_owned(),
            ApiError::RateLimited { telegram_id, retries } => {
                let id = i64_text(*telegram_id);
                let count = u64_text(*retries as u64);
                let mut text = between("Rate limited (HTTP 429) for ID ", &id, " after ");
                text.append(count.as_str());
                text.append(" retries");
                text
            },
        }
    }
}

// ---------------------------------------------------------------------------
// The client
// ---------------------------------------------------------------------------

/// The client of the API: its application key, and the session key once it
/// has one.
pub struct ApiClient {
    pub application_key: String,
    pub session_key: Option<String>,
}

/// What an [`ApiClient`] holds.
pub struct ApiClientView {
    pub application_key: Seq<char>,
    pub session_key: Option<Seq<char>>,
}

impl View for ApiClient {
    type V = ApiClientView;

    open spec fn view(&self) -> ApiClientView {
        ApiClientView {
            application_key: self.application_key@,
            session_key: optional_view(self.session_key),
        }
    }
}

impl ApiClient {
    /// A client with the given application key, and no session yet.
    pub fn new(application_key: String) -> (client: Self)
        ensures
            client@ == (ApiClientView { application_key: application_key@, session_key: None }),
    {
        ApiClient { application_key, session_key: None }
    }

    /// Takes the answer to a login: a session key replaces the one that was
    /// held, and a failure changes nothing.
    pub fn authenticate(&mut self, reply: LoginReply) -> (result: Result<(), AuthError<String>>)
        ensures
            login_outcome(reply@) matches Ok(key) ==> result is Ok && final(self)@ == (
            ApiClientView { session_key: Some(key), ..old(self)@ }),
            login_outcome(reply@) matches Err(e) ==> (result matches Err(x) && x@ == e)
                && final(self)@ == old(self)@,
    {
        match read_login(reply) {
            Ok(key) => {
                self.store_session(key);
                Ok(())
            },
            Err(e) => Err(e),
        }
    }

    /// Holds `session_key` from now on.
    pub fn store_session(&mut self, session_key: String)
        ensures
            final(self)@ == (ApiClientView { session_key: Some(session_key@), ..old(self)@ }),
    {
        self.session_key = Some(session_key);
    }

    /// Starts the lookup of a Telegram ID.
    pub fn check_id(&self, telegram_id: i64) -> (step: LookupStep<String>)
        ensures
            step@ == first_step(telegram_id),
    {
        LookupStep::SnapshotSession(SnapshotSession { run: Attempt { telegram_id, attempt: 0 } })
    }
}

// ---------------------------------------------------------------------------
// A lookup, step by step
// ---------------------------------------------------------------------------

/// Which lookup this is, and how many times it was rate-limited so far.
#[derive(Clone, Copy, Debug)]
pub struct Attempt {
    pub telegram_id: i64,
    pub attempt: u32,
}

/// The two tries of an attempt.
#[derive(Debug)]
pub enum Turn<S> {
    /// The first try, with the session key that was held before it.
    First { seen: Option<S> },
    /// The one retry, after the session was refreshed.
    Retry,
}

/// What a lookup needs done next.
#[derive(Debug)]
pub enum LookupStep<S> {
    SnapshotSession(SnapshotSession),
    ReadSession(ReadSession<S>),
    PostLookup(PostLookup<S>),
    LockSession(LockSession<S>),
    ReleaseSession(ReleaseSession),
    PostLogin(PostLogin),
    StoreSession(StoreSession<S>),
    Backoff(Backoff),
    /// The lookup is over.
    Done(Result<bool, ApiError<S>>),
}

/// Read the session key, to know later whether someone else replaced it.
#[derive(Debug)]
pub struct SnapshotSession {
    pub run: Attempt,
}

/// Read the session key that the lookup is to use.
#[derive(Debug)]
pub struct ReadSession<S> {
    pub run: Attempt,
    pub turn: Turn<S>,
}

/// Post the lookup form.
#[derive(Debug)]
pub struct PostLookup<S> {
    pub run: Attempt,
    pub turn: Turn<S>,
    pub session_key: S,
}

/// Take the session exclusively, and read its key.
#[derive(Debug)]
pub struct LockSession<S> {
    pub run: Attempt,
    pub seen: Option<S>,
}

/// Give the session free without touching it.
#[derive(Debug)]
pub struct ReleaseSession {
    pub run: Attempt,
}

/// Post the login form while the session is held.
#[derive(Debug)]
pub struct PostLogin {
    pub run: Attempt,
}

/// Replace the session key, and give the session free.
#[derive(Debug)]
pub struct StoreSession<S> {
    pub run: Attempt,
    pub session_key: S,
}

/// Wait before the next attempt.
#[derive(Debug)]
pub struct Backoff {
    pub next: Attempt,
    pub delay_ms: u64,
}

/// The view of a lookup's answer.
pub open spec fn answer_view(answer: Result<bool, ApiError<String>>) -> Result<
    bool,
    ApiError<Seq<char>>,
> {
    match answer {
        Ok(found) => Ok(found),
        Err(e) => Err(e@),
    }
}

impl View for Turn<String> {
    type V = Turn<Seq<char>>;

    open spec fn view(&self) -> Turn<Seq<char>> {
        match *self {
            Turn::First { seen } => Turn::First { seen: optional_view(seen) },
            Turn::Retry => Turn::Retry,
        }
    }
}

impl View for ReadSession<String> {
    type V = ReadSession<Seq<char>>;

    open spec fn view(&self) -> ReadSession<Seq<char>> {
        ReadSession { run: self.run, turn: self.turn@ }
    }
}

impl View for PostLookup<String> {
    type V = PostLookup<Seq<char>>;

    open spec fn view(&self) -> PostLookup<Seq<char>> {
        PostLookup { run: self.run, turn: self.turn@, session_key: self.session_key@ }
    }
}

impl View for LockSession<String> {
    type V = LockSession<Seq<char>>;

    open spec fn view(&self) -> LockSession<Seq<char>> {
        LockSession { run: self.run, seen: optional_view(self.seen) }
    }
}

impl View for StoreSession<String> {
    type V = StoreSession<Seq<char>>;

    open spec fn view(&self) -> StoreSession<Seq<char>> {
        StoreSession { run: self.run, session_key: self.session_key@ }
    }
}

impl View for LookupStep<String> {
    type V = LookupStep<Seq<char>>;

    open spec fn view(&self) -> LookupStep<Seq<char>> {
        match *self {
            LookupStep::SnapshotSession(s) => LookupStep::SnapshotSession(s),
            LookupStep::ReadSession(s) => LookupStep::ReadSession(s@),
            LookupStep::PostLookup(s) => LookupStep::PostLookup(s@),
            LookupStep::LockSession(s) => LookupStep::LockSession(s@),
            LookupStep::ReleaseSession(s) => LookupStep::ReleaseSession(s),
            LookupStep::PostLogin(s) => LookupStep::PostLogin(s),
            LookupStep::StoreSession(s) => LookupStep::StoreSession(s@),
            LookupStep::Backoff(s) => LookupStep::Backoff(s),
            LookupStep::Done(answer) => LookupStep::Done(answer_view(answer)),
        }
    }
}

/// Where a lookup starts.
pub open spec fn first_step(telegram_id: i64) -> LookupStep<Seq<char>> {
    LookupStep::SnapshotSession(SnapshotSession { run: Attempt { telegram_id, attempt: 0 } })
}

/// The delay before retry `retry`, counted from zero: it doubles each time.
pub open spec fn backoff_ms(retry: nat) -> nat
    decreases retry,
{
    if retry == 0 {
        BASE_DELAY_MS as nat
    } else {
        2 * backoff_ms((retry - 1) as nat)
    }
}

/// After HTTP 429: wait and attempt again, while retries are left.
pub open spec fn after_rate_limit(run: Attempt) -> LookupStep<Seq<char>> {
    if run.attempt < MAX_RETRIES {
        LookupStep::Backoff(
            Backoff {
                next: Attempt { telegram_id: run.telegram_id, attempt: (run.attempt + 1) as u32 },
                delay_ms: backoff_ms(run.attempt as nat) as u64,
            },
        )
    } else {
        LookupStep::Done(
            Err(ApiError::RateLimited { telegram_id: run.telegram_id, retries: MAX_RETRIES }),
        )
    }
}

/// After a try: an auth failure of the first try leads to a refresh, a rate
/// limit to a pause, and anything else ends the lookup.
pub open spec fn after_try(
    run: Attempt,
    turn: Turn<Seq<char>>,
    outcome: Result<bool, LookupError<Seq<char>>>,
) -> LookupStep<Seq<char>> {
    match outcome {
        Ok(found) => LookupStep::Done(Ok(found)),
        Err(LookupError::RateLimited) => after_rate_limit(run),
        Err(LookupError::Auth(e)) => match turn {
            Turn::First { seen } => LookupStep::LockSession(LockSession { run, seen }),
            Turn::Retry => LookupStep::Done(Err(e)),
        },
        Err(LookupError::Other(e)) => LookupStep::Done(Err(e)),
    }
}

/// The retry that follows a refresh.
pub open spec fn retry(run: Attempt) -> LookupStep<Seq<char>> {
    LookupStep::ReadSession(ReadSession { run, turn: Turn::Retry })
}

impl SnapshotSession {
    pub open spec fn after(self, held: Option<Seq<char>>) -> LookupStep<Seq<char>> {
        LookupStep::ReadSession(ReadSession { run: self.run, turn: Turn::First { seen: held } })
    }

    /// Goes on with the session key that is held.
    pub fn resume(self, held: Option<String>) -> (step: LookupStep<String>)
        ensures
            step@ == self.after(optional_view(held)),
    {
        LookupStep::ReadSession(ReadSession { run: self.run, turn: Turn::First { seen: held } })
    }
}

impl ReadSession<Seq<char>> {
    /// Without a session key the try fails as an expired session does.
    pub open spec fn after(self, held: Option<Seq<char>>) -> LookupStep<Seq<char>> {
        match held {
            Some(session_key) => LookupStep::PostLookup(
                PostLookup { run: self.run, turn: self.turn, session_key },
            ),
            None => after_try(self.run, self.turn, Err(LookupError::Auth(ApiError::NoSession))),
        }
    }
}

impl ReadSession<String> {
    /// Goes on with the session key that is held.
    pub fn resume(self, held: Option<String>) -> (step: LookupStep<String>)
        ensures
            step@ == self@.after(optional_view(held)),
    {
        match held {
            Some(session_key) => LookupStep::PostLookup(
                PostLookup { run: self.run, turn: self.turn, session_key },
            ),
            None => try_lookup_with_auth(
                self.run,
                self.turn,
                Err(LookupError::Auth(ApiError::NoSession)),
            ),
        }
    }
}

impl PostLookup<Seq<char>> {
    pub open spec fn after(self, reply: HttpReply<Seq<char>, Seq<Seq<char>>>) -> LookupStep<
        Seq<char>,
    > {
        after_try(self.run, self.turn, lookup_outcome(reply, self.run.telegram_id))
    }
}

impl PostLookup<String> {
    /// The form to post.
    pub fn request(&self, application_key: &str) -> (request: FormRequest)
        ensures
            request@ == lookup_form(
                application_key@,
                self@.session_key,
                self@.run.telegram_id,
            ),
    {
        lookup_request(application_key, self.session_key.as_str(), self.run.telegram_id)
    }

    /// Goes on with the answer.
    pub fn resume(self, reply: LookupReply) -> (step: LookupStep<String>)
        ensures
            step@ == self@.after(reply@),
    {
        let outcome = try_lookup(self.run.telegram_id, reply);
        try_lookup_with_auth(self.run, self.turn, outcome)
    }
}

impl LockSession<Seq<char>> {
    /// If someone else replaced the key in the meantime, there is nothing to
    /// refresh.
    pub open spec fn after(self, held: Option<Seq<char>>) -> LookupStep<Seq<char>> {
        if held is Some && held != self.seen {
            LookupStep::ReleaseSession(ReleaseSession { run: self.run })
        } else {
            LookupStep::PostLogin(PostLogin { run: self.run })
        }
    }
}

impl LockSession<String> {
    /// Goes on with the key of the session that is now held exclusively.
    pub fn refresh_session(self, held: &Option<String>) -> (step: LookupStep<String>)
        ensures
            step@ == self@.after(optional_view(*held)),
    {
        if held.is_some() && !same_optional_text(held, &self.seen) {
            LookupStep::ReleaseSession(ReleaseSession { run: self.run })
        } else {
            LookupStep::PostLogin(PostLogin { run: self.run })
        }
    }
}

impl ReleaseSession {
    /// Goes on once the session is free.
    pub fn resume(self) -> (step: LookupStep<String>)
        ensures
            step@ == retry(self.run),
    {
        LookupStep::ReadSession(ReadSession { run: self.run, turn: Turn::Retry })
    }
}

impl PostLogin {
    pub open spec fn after(self, reply: HttpReply<Seq<char>, Seq<char>>) -> LookupStep<Seq<char>> {
        match login_outcome(reply) {
            Ok(session_key) => LookupStep::StoreSession(
                StoreSession { run: self.run, session_key },
            ),
            Err(e) => LookupStep::Done(Err(ApiError::Reauthentication(e))),
        }
    }

    /// The form to post.
    pub fn request(&self, application_key: &str) -> (request: FormRequest)
        ensures
            request@ == login_form(application_key@),
    {
        login_request(application_key)
    }

    /// Goes on with the answer.
    pub fn resume(self, reply: LoginReply) -> (step: LookupStep<String>)
        ensures
            step@ == self.after(reply@),
    {
        match read_login(reply) {
            Ok(session_key) => LookupStep::StoreSession(
                StoreSession { run: self.run, session_key },
            ),
            Err(e) => LookupStep::Done(Err(ApiError::Reauthentication(e))),
        }
    }
}

impl StoreSession<String> {
    /// Goes on once the key is stored and the session is free.
    pub fn resume(self) -> (step: LookupStep<String>)
        ensures
            step@ == retry(self.run),
    {
        LookupStep::ReadSession(ReadSession { run: self.run, turn: Turn::Retry })
    }
}

impl Backoff {
    pub open spec fn after(self) -> LookupStep<Seq<char>> {
        LookupStep::SnapshotSession(SnapshotSession { run: self.next })
    }

    /// Goes on once the delay has passed.
    pub fn resume(self) -> (step: LookupStep<String>)
        ensures
            step@ == self.after(),
    {
        LookupStep::SnapshotSession(SnapshotSession { run: self.next })
    }
}

/// The delay before retry `retry`.
fn delay_ms(retry: u32) -> (delay: u64)
    requires
        retry < MAX_RETRIES,
    ensures
        delay == backoff_ms(retry as nat),
{
    reveal_with_fuel(backoff_ms, 5);
    let mut delay: u64 = BASE_DELAY_MS;
    let mut i: u32 = 0;
    while i < retry
        invariant
            i <= retry < MAX_RETRIES,
            delay == backoff_ms(i as nat),
        decreases retry - i,
    {
        reveal_with_fuel(backoff_ms, 5);
        delay = delay * 2;
        i = i + 1;
    }
    delay
}

/// Decides how a lookup goes on after one of its tries.
fn try_lookup_with_auth(
    run: Attempt,
    turn: Turn<String>,
    outcome: Result<bool, LookupError<String>>,
) -> (step: LookupStep<String>)
    ensures
        step@ == after_try(
            run,
            turn@,
            match outcome {
                Ok(found) => Ok(found),
                Err(e) => Err(e@),
            },
        ),
{
    match outcome {
        Ok(found) => LookupStep::Done(Ok(found)),
        Err(LookupError::RateLimited) => {
            if run.attempt < MAX_RETRIES {
                LookupStep::Backoff(
                    Backoff {
                        next: Attempt {
                            telegram_id: run.telegram_id,
                            attempt: run.attempt + 1,
                        },
                        delay_ms: delay_ms(run.attempt),
                    },
                )
            } else {
                LookupStep::Done(
                    Err(
                        ApiError::RateLimited {
                            telegram_id: run.telegram_id,
                            retries: MAX_RETRIES,
                        },
                    ),
                )
            }
        },
        Err(LookupError::Auth(e)) => match turn {
            Turn::First { seen } => LookupStep::LockSession(LockSession { run, seen }),
            Turn::Retry => LookupStep::Done(Err(e)),
        },
        Err(LookupError::Other(e)) => LookupStep::Done(Err(e)),
    }
}

}
