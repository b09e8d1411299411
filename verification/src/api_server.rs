//! The HTTP API: `GET /api/check/{telegram_id}` with a bearer token.
use crate::bot_handler::{parse_telegram_id, telegram_id_value};
use crate::text::{between, decimal, law_decimal_denotes, same_text, without_prefix};
use vstd::prelude::*;

verus! {

/// The route of the lookup.
pub const CHECK_ROUTE: &'static str = "/api/check/{telegram_id}";

/// The status of a request that is malformed.
pub const BAD_REQUEST: u16 = 400;

/// The status of a request without the right bearer token.
pub const UNAUTHORIZED: u16 = 401;

/// The status of a request that failed for no fault of its own.
pub const INTERNAL_SERVER_ERROR: u16 = 500;

/// The body of a successful response.
#[derive(Clone, Copy, Debug, PartialEq, Eq, Structural)]
pub struct CheckResponse {
    pub telegram_id: i64,
    pub is_compromised: bool,
}

/// A response that reports an error: its status and the text in its body.
#[derive(Debug)]
pub struct ErrorResponse<S> {
    pub status: u16,
    pub error: S,
}

impl View for ErrorResponse<String> {
    type V = ErrorResponse<Seq<char>>;

    open spec fn view(&self) -> ErrorResponse<Seq<char>> {
        ErrorResponse { status: self.status, error: self.error@ }
    }
}

// ---------------------------------------------------------------------------
// The bearer token
// ---------------------------------------------------------------------------

/// Whether a byte of a header is a visible ASCII character, a space or a tab.
pub open spec fn is_visible(b: u8) -> bool {
    32 <= b < 127 || b == 9
}

/// The characters that the bytes of a header stand for.
pub open spec fn ascii_text(bytes: Seq<u8>) -> Seq<char> {
    bytes.map_values(|b: u8| b as char)
}

/// The text of a header. A header with a byte that is not visible has none.
pub open spec fn header_text(bytes: Seq<u8>) -> Option<Seq<char>> {
    if forall|i: int| 0 <= i < bytes.len() ==> is_visible(#[trigger] bytes[i]) {
        Some(ascii_text(bytes))
    } else {
        None
    }
}

/// Reads the text of a header.
pub fn read_header(bytes: &Vec<u8>) -> (text: Option<String>)
    ensures
        match text {
            Some(t) => header_text(bytes@) == Some(t@),
            None => header_text(bytes@) is None,
        },
{
    let mut text = String::new();
    let mut i: usize = 0;
    while i < bytes.len()
        invariant
            i <= bytes@.len(),
            text@ == ascii_text(bytes@.take(i as int)),
            forall|j: int| 0 <= j < i ==> is_visible(#[trigger] bytes@[j]),
        decreases bytes@.len() - i,
    {
        let b: u8 = bytes[i];
        if !(32 <= b && b < 127 || b == 9) {
            assert(!is_visible(bytes@[i as int]));
            return None;
        }
        assert(ascii_text(bytes@.take(i + 1)) =~= ascii_text(bytes@.take(i as int)).push(
            b as char,
        ));
        text.push(b as char);
        i = i + 1;
    }
    assert(bytes@.take(i as int) =~= bytes@);
    Some(text)
}

/// What an authorization begins with.
pub const BEARER: &'static str = "Bearer ";

/// The refusal of a request without the right bearer token.
pub open spec fn unauthorized(error: Seq<char>) -> ErrorResponse<Seq<char>> {
    ErrorResponse { status: UNAUTHORIZED, error }
}

/// What comes of an authorization header, where `expected` is the right token.
pub open spec fn authorization(header: Option<Seq<u8>>, expected: Seq<char>) -> Result<
    (),
    ErrorResponse<Seq<char>>,
> {
    let text = match header {
        Some(bytes) => header_text(bytes),
        None => None,
    };
    match text {
        None => Err(unauthorized("Missing Authorization header"@)),
        Some(t) => if !BEARER@.is_prefix_of(t) {
            Err(unauthorized("Invalid Authorization format. Expected: Bearer <token>"@))
        } else if t.skip(BEARER@.len() as int) != expected {
            Err(unauthorized("Invalid bearer token"@))
        } else {
            Ok(())
        },
    }
}

/// The view of a header that may be missing.
pub open spec fn header_view(header: Option<Vec<u8>>) -> Option<Seq<u8>> {
    match header {
        Some(bytes) => Some(bytes@),
        None => None,
    }
}

/// The view of a verdict on a request.
pub open spec fn verdict_view(verdict: Result<(), ErrorResponse<String>>) -> Result<
    (),
    ErrorResponse<Seq<char>>,
> {
    match verdict {
        Ok(u) => Ok(u),
        Err(e) => Err(e@),
    }
}

/// Refuses a request without the right bearer token.
fn refuse(error: &str) -> (refusal: ErrorResponse<String>)
    ensures
        refusal@ == unauthorized(error@),
{
    ErrorResponse { status: UNAUTHORIZED, error: error.to_owned() }
}

/// Validates an `Authorization: Bearer <token>` header.
pub fn validate_bearer(header: &Option<Vec<u8>>, expected_token: &str) -> (verdict: Result<
    (),
    ErrorResponse<String>,
>)
    ensures
        verdict_view(verdict) == authorization(header_view(*header), expected_token@),
{
    let text = match header {
        Some(bytes) => read_header(bytes),
        None => None,
    };
    match text {
        None => Err(refuse("Missing Authorization header")),
        Some(t) => match without_prefix(t.as_str(), BEARER) {
            None => Err(refuse("Invalid Authorization format. Expected: Bearer <token>")),
            Some(token) => if same_text(token.as_str(), expected_token) {
                Ok(())
            } else {
                Err(refuse("Invalid bearer token"))
            },
        },
    }
}

// ---------------------------------------------------------------------------
// The endpoint
// ---------------------------------------------------------------------------

/// What a request to the endpoint needs done next.
#[derive(Debug)]
pub enum EndpointStep<S> {
    LookUp(LookUp),
    /// Answer the request.
    Respond(Result<CheckResponse, ErrorResponse<S>>),
}

/// The view of an [`EndpointStep`].
pub type EndpointView = EndpointStep<Seq<char>>;

/// Look the account up.
#[derive(Debug)]
pub struct LookUp {
    pub telegram_id: i64,
}

impl View for EndpointStep<String> {
    type V = EndpointView;

    open spec fn view(&self) -> EndpointView {
        match *self {
            EndpointStep::LookUp(s) => EndpointStep::LookUp(s),
            EndpointStep::Respond(r) => EndpointStep::Respond(
                match r {
                    Ok(response) => Ok(response),
                    Err(e) => Err(e@),
                },
            ),
        }
    }
}

/// The refusal of a request whose path does not end in a Telegram ID.
pub open spec fn bad_id(telegram_id: Seq<char>) -> ErrorResponse<Seq<char>> {
    ErrorResponse {
        status: BAD_REQUEST,
        error: "Invalid telegram_id '"@ + telegram_id + "'. Must be a positive integer."@,
    }
}

/// The report of a failed lookup.
pub open spec fn lookup_error() -> ErrorResponse<Seq<char>> {
    ErrorResponse {
        status: INTERNAL_SERVER_ERROR,
        error: "Internal lookup error. Please try again later."@,
    }
}

/// What a request leads to: its token is examined first, then its path.
pub open spec fn request_step(
    header: Option<Seq<u8>>,
    expected: Seq<char>,
    telegram_id: Seq<char>,
) -> EndpointView {
    match authorization(header, expected) {
        Err(e) => EndpointStep::Respond(Err(e)),
        Ok(_) => match telegram_id_value(telegram_id) {
            Some(id) => EndpointStep::LookUp(LookUp { telegram_id: id }),
            None => EndpointStep::Respond(Err(bad_id(telegram_id))),
        },
    }
}

/// Handles `GET /api/check/{telegram_id}`.
pub fn handle_check(
    header: &Option<Vec<u8>>,
    expected_token: &str,
    telegram_id: String,
) -> (step: EndpointStep<String>)
    ensures
        step@ == request_step(header_view(*header), expected_token@, telegram_id@),
{
    match validate_bearer(header, expected_token) {
        Err(e) => EndpointStep::Respond(Err(e)),
        Ok(_) => match parse_telegram_id(telegram_id.as_str()) {
            Some(id) => EndpointStep::LookUp(LookUp { telegram_id: id }),
            None => {
                let error = between(
                    "Invalid telegram_id '",
                    &telegram_id,
                    "'. Must be a positive integer.",
                );
                EndpointStep::Respond(Err(ErrorResponse { status: BAD_REQUEST, error }))
            },
        },
    }
}

impl LookUp {
    /// The response to what the lookup came to.
    pub open spec fn response<E>(self, result: Result<bool, E>) -> EndpointView {
        EndpointStep::Respond(
            match result {
                Ok(is_compromised) => Ok(
                    CheckResponse { telegram_id: self.telegram_id, is_compromised },
                ),
                Err(_) => Err(lookup_error()),
            },
        )
    }

    /// Goes on with the result of the lookup. What went wrong is not disclosed.
    pub fn resume<E>(self, result: &Result<bool, E>) -> (step: EndpointStep<String>)
        ensures
            step@ == self.response(*result),
    {
        match result {
            Ok(is_compromised) => EndpointStep::Respond(
                Ok(
                    CheckResponse {
                        telegram_id: self.telegram_id,
                        is_compromised: *is_compromised,
                    },
                ),
            ),
            Err(_) => EndpointStep::Respond(
                Err(
                    ErrorResponse {
                        status: INTERNAL_SERVER_ERROR,
                        error: "Internal lookup error. Please try again later.".to_owned(),
                    },
                ),
            ),
        }
    }
}

/// A request is authorized if and only if its header reads `Bearer `, followed by
/// the token. A token with a character that no header can hold lets nobody in.
pub proof fn law_only_the_token_authorizes(header: Option<Seq<u8>>, expected: Seq<char>)
    ensures
        authorization(header, expected) is Ok <==> (header matches Some(bytes) && header_text(
            bytes,
        ) == Some(BEARER@ + expected)),
{
    if let Some(bytes) = header {
        if let Some(text) = header_text(bytes) {
            if BEARER@.is_prefix_of(text) {
                assert(text =~= BEARER@ + text.skip(BEARER@.len() as int));
            }
            if text == BEARER@ + expected {
                assert(text.take(BEARER@.len() as int) =~= BEARER@);
                assert(text.skip(BEARER@.len() as int) =~= expected);
            }
        }
    }
}

/// A request without the right token is answered with status 401, whatever its
/// path, and nothing is looked up.
pub proof fn law_unauthorized_requests_are_refused(
    header: Option<Seq<u8>>,
    expected: Seq<char>,
    telegram_id: Seq<char>,
)
    requires
        authorization(header, expected) is Err,
    ensures
        request_step(header, expected, telegram_id) matches EndpointStep::Respond(Err(e))
            && e.status == UNAUTHORIZED && authorization(header, expected) == Err::<
            (),
            ErrorResponse<Seq<char>>,
        >(e),
{
}

/// An authorized request for the decimal notation of a positive ID looks that ID
/// up, and one for any other number is answered with status 400.
pub proof fn law_authorized_ids_are_looked_up(
    header: Option<Seq<u8>>,
    expected: Seq<char>,
    id: i64,
)
    requires
        authorization(header, expected) is Ok,
    ensures
        id > 0 ==> request_step(header, expected, decimal(id as int)) == EndpointView::LookUp(
            LookUp { telegram_id: id },
        ),
        id <= 0 ==> (request_step(header, expected, decimal(id as int)) matches EndpointStep::Respond(
            Err(e),
        ) && e.status == BAD_REQUEST),
{
    law_decimal_denotes(id as int);
}

/// Every request that is looked up is answered about the ID that it asked for.
pub proof fn law_answers_are_about_the_request<E>(
    header: Option<Seq<u8>>,
    expected: Seq<char>,
    telegram_id: Seq<char>,
    found: bool,
)
    ensures
        request_step(header, expected, telegram_id) matches EndpointStep::LookUp(s) ==> s.response(
            Ok::<bool, E>(found),
        ) == EndpointView::Respond(
            Ok(
                CheckResponse {
                    telegram_id: telegram_id_value(telegram_id)->0,
                    is_compromised: found,
                },
            ),
        ),
{
}

}
