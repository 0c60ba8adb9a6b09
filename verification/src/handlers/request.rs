use vstd::prelude::*;

use crate::errors::handler_errors::{status_of, HandlerError};
use crate::errors::messages::{error_text, get_error_message, ErrorKey};
use crate::text::{decimal, i64_to_decimal, option_debug_text, option_i64_debug};

verus! {

/// A request that a handler refuses: the error, and the HTTP status that it
/// is answered with.
#[derive(Debug)]
pub struct Rejection {
    pub error: HandlerError,
    pub status: u16,
}

/// Whether `e` is a bad request whose message is that of `key` with `info`.
pub open spec fn is_bad_request(e: HandlerError, key: ErrorKey, info: Seq<char>) -> bool {
    e matches HandlerError::BadRequest(m) && m@ == error_text(key, info)
}

/// Whether `r` refuses with a bad request of `key` and `info`, answered with
/// the status of a bad request.
pub open spec fn is_bad_request_rejection(r: Rejection, key: ErrorKey, info: Seq<char>) -> bool {
    is_bad_request(r.error, key, info) && r.status == status_of(r.error)
}

/// A bad request with the message of `key` and `info`.
pub fn bad_request(key: ErrorKey, info: String) -> (e: HandlerError)
    ensures
        is_bad_request(e, key, info@),
{
    HandlerError::BadRequest(get_error_message(key, info))
}

/// Refuses a request with `error`, answered with the error's own status.
pub fn reject(error: HandlerError) -> (r: Rejection)
    ensures
        r.status == status_of(error),
        r.error == error,
{
    let status = error.status_code();
    Rejection { error, status }
}

/// The detail of a mismatch between the id in the path and the id in the body:
/// `<path label>: <path id>, <body label>: <body id>`.
pub open spec fn id_mismatch_info(
    path_label: Seq<char>,
    path: i64,
    body_label: Seq<char>,
    body_id: Option<i64>,
) -> Seq<char> {
    path_label + ": "@ + decimal(path as int) + ", "@ + body_label + ": "@ + option_debug_text(
        body_id,
    )
}

/// Whether the id in the body of an update names the record of the path.
pub open spec fn ids_match(path: i64, body_id: Option<i64>) -> bool {
    body_id == Some(path)
}

/// Checks that the body of an update carries the id of its path; any other
/// body is a bad request of `key`.
pub fn check_path_and_body_id(
    key: ErrorKey,
    path_label: &str,
    path: i64,
    body_label: &str,
    body_id: Option<i64>,
) -> (r: Result<(), HandlerError>)
    ensures
        (r is Ok) == (body_id == Some(path)),
        ids_match(path, body_id) ==> r is Ok,
        !ids_match(path, body_id) ==> (r matches Err(e) && is_bad_request(
            e,
            key,
            id_mismatch_info(path_label@, path, body_label@, body_id),
        )),
{
    if body_id.is_none() || (body_id.is_some() && body_id.unwrap() != path) {
        let mut info = String::from_str(path_label);
        info.append(": ");
        let p = i64_to_decimal(path);
        info.append(p.as_str());
        info.append(", ");
        info.append(body_label);
        info.append(": ");
        let b = option_i64_debug(body_id);
        info.append(b.as_str());
        Err(bad_request(key, info))
    } else {
        Ok(())
    }
}

/// The detail of a request that the web framework could not read:
/// `ActixWebError: <the framework's message>`.
pub open spec fn framework_error_info(message: Seq<char>) -> Seq<char> {
    "ActixWebError: "@ + message
}

/// The error for a request whose query, path or JSON body the web framework
/// could not read: a bad request of `key` carrying the framework's message.
pub fn framework_error(key: ErrorKey, message: &str) -> (e: HandlerError)
    ensures
        is_bad_request(e, key, framework_error_info(message@)),
{
    let mut info = String::from_str("ActixWebError: ");
    info.append(message);
    bad_request(key, info)
}

/// The body of an update names the record of its path exactly when it
/// carries the path's id: any other id, smaller or larger, and a missing id
/// are mismatches.
pub proof fn lemma_ids_match_only_equal(path: i64, body: i64)
    ensures
        ids_match(path, Some(body)) ==> body == path,
        body == path ==> ids_match(path, Some(body)),
        !ids_match(path, None),
{
}

} // verus!
