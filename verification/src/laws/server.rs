//! What the HTTP API answers.
use crate::api_server::{
    authorization, header_text, request_step, EndpointStep, EndpointView, ErrorResponse, LookUp,
};
use crate::bot_handler::telegram_id_value;
use crate::text::i64_value;
use vstd::prelude::*;

verus! {

/// A header has a text if and only if each of its bytes is a visible ASCII
/// character, a space or a tab; then the text has one character for each byte, of
/// the same number.
pub proof fn law_headers_are_read_byte_by_byte(bytes: Seq<u8>)
    ensures
        header_text(bytes) is Some <==> forall|i: int|
            0 <= i < bytes.len() ==> (32 <= #[trigger] bytes[i] <= 126 || bytes[i] == 9),
        header_text(bytes) matches Some(text) ==> text.len() == bytes.len() && forall|i: int|
            0 <= i < bytes.len() ==> #[trigger] text[i] as int == bytes[i] as int,
{
    if forall|i: int| 0 <= i < bytes.len() ==> (32 <= #[trigger] bytes[i] <= 126 || bytes[i] == 9) {
        assert forall|i: int| 0 <= i < bytes.len() implies crate::api_server::is_visible(
            #[trigger] bytes[i],
        ) by {}
    }
    if header_text(bytes) is Some {
        assert forall|i: int| 0 <= i < bytes.len() implies (32 <= #[trigger] bytes[i] <= 126
            || bytes[i] == 9) by {
            assert(crate::api_server::is_visible(bytes[i]));
        }
    }
}

/// A header that is missing or unreadable, one that does not begin with `Bearer `
/// and one with another token are refused with status 401, each with its own
/// text; `Bearer ` and the token let in.
pub proof fn law_refusals_say_what_is_wrong(
    bytes: Seq<u8>,
    token: Seq<char>,
    expected: Seq<char>,
)
    ensures
        authorization(None, expected) == Err::<(), ErrorResponse<Seq<char>>>(
            ErrorResponse { status: 401, error: "Missing Authorization header"@ },
        ),
        header_text(bytes) is None ==> authorization(Some(bytes), expected) == Err::<
            (),
            ErrorResponse<Seq<char>>,
        >(ErrorResponse { status: 401, error: "Missing Authorization header"@ }),
        header_text(bytes) matches Some(text) ==> {
            &&& !"Bearer "@.is_prefix_of(text) ==> authorization(Some(bytes), expected) == Err::<
                (),
                ErrorResponse<Seq<char>>,
            >(
                ErrorResponse {
                    status: 401,
                    error: "Invalid Authorization format. Expected: Bearer <token>"@,
                },
            )
            &&& text == "Bearer "@ + token && token != expected ==> authorization(
                Some(bytes),
                expected,
            ) == Err::<(), ErrorResponse<Seq<char>>>(
                ErrorResponse { status: 401, error: "Invalid bearer token"@ },
            )
            &&& text == "Bearer "@ + token && token == expected ==> authorization(
                Some(bytes),
                expected,
            ) is Ok
        },
{
    if let Some(text) = header_text(bytes) {
        if text == "Bearer "@ + token {
            assert(text.take("Bearer "@.len() as int) =~= "Bearer "@);
            assert(text.skip("Bearer "@.len() as int) =~= token);
        }
    }
}

/// A request with the token looks up the positive `i64` that its path denotes;
/// where it denotes none, the answer has status 400 and quotes the path in full.
/// Without the token the answer is the refusal, whatever the path.
pub proof fn law_requests(
    header: Option<Seq<u8>>,
    expected: Seq<char>,
    path: Seq<char>,
    id: i64,
    refusal: ErrorResponse<Seq<char>>,
)
    ensures
        authorization(header, expected) is Ok && i64_value(path) == Some(id) && id > 0
            ==> request_step(header, expected, path) == EndpointView::LookUp(
            LookUp { telegram_id: id },
        ),
        authorization(header, expected) is Ok && telegram_id_value(path) is None ==> request_step(
            header,
            expected,
            path,
        ) == EndpointStep::Respond(
            Err(
                ErrorResponse {
                    status: 400,
                    error: "Invalid telegram_id '"@ + path + "'. Must be a positive integer."@,
                },
            ),
        ),
        authorization(header, expected) == Err::<(), ErrorResponse<Seq<char>>>(refusal)
            ==> request_step(header, expected, path) == EndpointStep::Respond(Err(refusal)),
{
}

/// A lookup that was answered is answered with its ID and what was found; one
/// that failed with status 500 and always the same text.
pub proof fn law_lookups_are_answered<E>(look_up: LookUp, found: bool, error: E)
    ensures
        look_up.response(Ok::<bool, E>(found)) matches EndpointStep::Respond(Ok(response))
            && response.telegram_id == look_up.telegram_id && response.is_compromised == found,
        look_up.response(Err::<bool, E>(error)) == EndpointStep::Respond(
            Err(
                ErrorResponse {
                    status: 500,
                    error: "Internal lookup error. Please try again later."@,
                },
            ),
        ),
{
}

}
