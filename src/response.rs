use vstd::prelude::*;
use crate::model::{ApiError, HubVisit, Profile};

verus! {

/// The status code that `get_visit` reads as "no visit exists".
pub const NOT_FOUND: u16 = 404;

/// A 2xx status.
pub open spec fn is_success(status: u16) -> bool {
    200 <= status && status < 300
}

/// What an operation that decodes its body returns: an API error for a status outside
/// 2xx, else the decoded value, or a parse error where the body did not decode.
pub open spec fn decoded_outcome<T>(status: u16, decoded: Result<T, String>) -> Result<T, ApiError> {
    if !is_success(status) {
        Err(ApiError::Api(status))
    } else {
        match decoded {
            Ok(v) => Ok(v),
            Err(m) => Err(ApiError::Parse(m)),
        }
    }
}

/// What `get_visit` returns: absent on 404, otherwise as any decoding operation.
pub open spec fn visit_outcome(status: u16, decoded: Result<HubVisit, String>) -> Result<
    Option<HubVisit>,
    ApiError,
> {
    if status == 404 {
        Ok(None)
    } else {
        match decoded_outcome(status, decoded) {
            Ok(v) => Ok(Some(v)),
            Err(e) => Err(e),
        }
    }
}

/// What `delete_visit` returns: no body is read.
pub open spec fn delete_outcome(status: u16) -> Result<(), ApiError> {
    if is_success(status) {
        Ok(())
    } else {
        Err(ApiError::Api(status))
    }
}

pub fn status_is_success(status: u16) -> (r: bool)
    ensures
        r == is_success(status),
{
    200 <= status && status < 300
}

/// Turns a status and the decoded body into the operation's result.
fn decoded_response<T>(status: u16, decoded: Result<T, String>) -> (r: Result<T, ApiError>)
    ensures
        r == decoded_outcome(status, decoded),
{
    if !status_is_success(status) {
        Err(ApiError::Api(status))
    } else {
        match decoded {
            Ok(v) => Ok(v),
            Err(m) => Err(ApiError::Parse(m)),
        }
    }
}

/// The result of `GET /profiles/me`, from its status and its body decoded as a `Profile`.
pub fn current_user_response(status: u16, decoded: Result<Profile, String>) -> (r: Result<
    Profile,
    ApiError,
>)
    ensures
        r == decoded_outcome(status, decoded),
{
    decoded_response(status, decoded)
}

/// The result of `GET /hub_visits/{person_id}/{date}`. A 404 means that no visit
/// exists and is no error; the body is then not looked at.
pub fn visit_response(status: u16, decoded: Result<HubVisit, String>) -> (r: Result<
    Option<HubVisit>,
    ApiError,
>)
    ensures
        r == visit_outcome(status, decoded),
{
    if status == NOT_FOUND {
        return Ok(None);
    }
    match decoded_response(status, decoded) {
        Ok(v) => Ok(Some(v)),
        Err(e) => Err(e),
    }
}

/// The result of `GET /hub_visits?date=...`: the visits in the order the server gave.
pub fn visits_response(status: u16, decoded: Result<Vec<HubVisit>, String>) -> (r: Result<
    Vec<HubVisit>,
    ApiError,
>)
    ensures
        r == decoded_outcome(status, decoded),
{
    decoded_response(status, decoded)
}

/// The result of `PATCH /hub_visits/{person_id}/{date}`: the visit the server returned.
pub fn create_or_update_response(status: u16, decoded: Result<HubVisit, String>) -> (r: Result<
    HubVisit,
    ApiError,
>)
    ensures
        r == decoded_outcome(status, decoded),
{
    decoded_response(status, decoded)
}

/// The result of `DELETE /hub_visits/{person_id}/{date}`.
pub fn delete_response(status: u16) -> (r: Result<(), ApiError>)
    ensures
        r == delete_outcome(status),
{
    if status_is_success(status) {
        Ok(())
    } else {
        Err(ApiError::Api(status))
    }
}

/// `get_visit` reads a 404 as an absent visit, whatever the body, and a 2xx response
/// whose body decodes as a visit as that visit.
pub proof fn lemma_visit_absent_or_present(status: u16, decoded: Result<HubVisit, String>)
    ensures
        status == 404 ==> visit_outcome(status, decoded) == Ok::<Option<HubVisit>, ApiError>(None),
        is_success(status) && decoded is Ok ==> visit_outcome(status, decoded) == Ok::<
            Option<HubVisit>,
            ApiError,
        >(Some(decoded->Ok_0)),
{
}

/// A status outside 2xx, other than the 404 that `get_visit` reads as absent, makes
/// every operation fail with an API error that carries that status.
pub proof fn lemma_error_status_carried(
    status: u16,
    profile: Result<Profile, String>,
    visit: Result<HubVisit, String>,
    visits: Result<Vec<HubVisit>, String>,
    written: Result<HubVisit, String>,
)
    requires
        !is_success(status),
        status != 404,
    ensures
        decoded_outcome(status, profile) == Err::<Profile, ApiError>(ApiError::Api(status)),
        visit_outcome(status, visit) == Err::<Option<HubVisit>, ApiError>(ApiError::Api(status)),
        decoded_outcome(status, visits) == Err::<Vec<HubVisit>, ApiError>(ApiError::Api(status)),
        decoded_outcome(status, written) == Err::<HubVisit, ApiError>(ApiError::Api(status)),
        delete_outcome(status) == Err::<(), ApiError>(ApiError::Api(status)),
{
}

/// A 2xx response whose body does not decode makes every decoding operation fail with
/// a parse error carrying the decoder's message, never with a value.
pub proof fn lemma_malformed_body_is_parse_error(
    status: u16,
    message: String,
)
    requires
        is_success(status),
    ensures
        decoded_outcome(status, Err::<Profile, String>(message)) == Err::<Profile, ApiError>(
            ApiError::Parse(message),
        ),
        visit_outcome(status, Err::<HubVisit, String>(message)) == Err::<
            Option<HubVisit>,
            ApiError,
        >(ApiError::Parse(message)),
        decoded_outcome(status, Err::<Vec<HubVisit>, String>(message)) == Err::<
            Vec<HubVisit>,
            ApiError,
        >(ApiError::Parse(message)),
        decoded_outcome(status, Err::<HubVisit, String>(message)) == Err::<HubVisit, ApiError>(
            ApiError::Parse(message),
        ),
{
}

} // verus!
