use vstd::prelude::*;

use crate::errors::db_error::DBAccessError;

verus! {

/// An error that a request handler answers with.
#[derive(Debug)]
pub enum HandlerError {
    NotFound(String),
    InternalServerError(String),
    BadRequest(String),
}

/// The handler error that a data access error becomes: a missing record is
/// not found, invalid data is a bad request, and a failure of the database
/// is an internal server error carrying the failure's text.
pub open spec fn handler_error_of(error: DBAccessError) -> HandlerError {
    match error {
        DBAccessError::NotFoundError(msg) => HandlerError::NotFound(msg),
        DBAccessError::ValidationError(msg) => HandlerError::BadRequest(msg),
        DBAccessError::ConnectionError(f) => HandlerError::InternalServerError(f.message),
        DBAccessError::QueryError(msg) => HandlerError::InternalServerError(msg),
    }
}

impl From<DBAccessError> for HandlerError {
    fn from(error: DBAccessError) -> (r: Self) {
        match error {
            DBAccessError::NotFoundError(msg) => HandlerError::NotFound(msg),
            DBAccessError::ValidationError(msg) => HandlerError::BadRequest(msg),
            DBAccessError::ConnectionError(f) => HandlerError::InternalServerError(f.message),
            DBAccessError::QueryError(msg) => HandlerError::InternalServerError(msg),
        }
    }
}

impl vstd::std_specs::convert::FromSpecImpl<DBAccessError> for HandlerError {
    open spec fn obeys_from_spec() -> bool {
        true
    }

    open spec fn from_spec(v: DBAccessError) -> HandlerError {
        handler_error_of(v)
    }
}

/// The HTTP status that answers an error.
pub open spec fn status_of(e: HandlerError) -> u16 {
    match e {
        HandlerError::NotFound(_) => 404,
        HandlerError::InternalServerError(_) => 500,
        HandlerError::BadRequest(_) => 400,
    }
}

/// The text of an error: its variant's name, a colon and the detail.
pub open spec fn handler_error_text(e: HandlerError) -> Seq<char> {
    match e {
        HandlerError::NotFound(m) => "NotFound: "@ + m@,
        HandlerError::InternalServerError(m) => "InternalServerError: "@ + m@,
        HandlerError::BadRequest(m) => "BadRequest: "@ + m@,
    }
}

impl HandlerError {
    /// The HTTP status code that answers this error.
    pub fn status_code(&self) -> (r: u16)
        ensures
            r == status_of(*self),
    {
        match self {
            HandlerError::NotFound(_) => 404,
            HandlerError::InternalServerError(_) => 500,
            HandlerError::BadRequest(_) => 400,
        }
    }

    /// The text of the error.
    pub fn to_string(&self) -> (r: String)
        ensures
            r@ == handler_error_text(*self),
    {
        let (head, detail) = match self {
            HandlerError::NotFound(m) => ("NotFound: ", m.as_str()),
            HandlerError::InternalServerError(m) => ("InternalServerError: ", m.as_str()),
            HandlerError::BadRequest(m) => ("BadRequest: ", m.as_str()),
        };
        let mut r = String::from_str(head);
        r.append(detail);
        r
    }
}

/// A missing record is answered with 404, invalid data with 400, and a failure
/// of the database with 500.
pub proof fn lemma_db_error_status(e: DBAccessError)
    ensures
        status_of(handler_error_of(e)) == match e {
            DBAccessError::NotFoundError(_) => 404u16,
            DBAccessError::ValidationError(_) => 400u16,
            _ => 500u16,
        },
{
}

} // verus!
