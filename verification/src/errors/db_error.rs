use vstd::prelude::*;

verus! {

/// What kind of failure the database driver reported.
#[derive(Debug, Clone, Copy, PartialEq, Eq, Structural)]
pub enum SqlFailureKind {
    /// The connection pool was closed.
    PoolClosed,
    /// No connection of the pool became free in time.
    PoolTimedOut,
    /// Reading or writing the database failed.
    Io,
    /// Any other failure of the driver.
    Other,
}

/// A failure of the database driver: its kind and its text.
#[derive(Debug)]
pub struct SqlFailure {
    pub kind: SqlFailureKind,
    pub message: String,
}

/// An error of the data access layer.
#[derive(Debug)]
pub enum DBAccessError {
    ConnectionError(SqlFailure),
    QueryError(String),
    ValidationError(String),
    NotFoundError(String),
}

/// Whether an error comes from a passing problem of the connection, so that
/// the same request may succeed when tried again.
pub open spec fn retryable(e: DBAccessError) -> bool {
    match e {
        DBAccessError::ConnectionError(f) => match f.kind {
            SqlFailureKind::PoolClosed | SqlFailureKind::PoolTimedOut | SqlFailureKind::Io => true,
            SqlFailureKind::Other => false,
        },
        _ => false,
    }
}

/// The text of an error: its variant's name, a colon and the detail.
pub open spec fn db_error_text(e: DBAccessError) -> Seq<char> {
    match e {
        DBAccessError::ConnectionError(f) => "ConnectionError: "@ + f.message@,
        DBAccessError::QueryError(m) => "QueryError: "@ + m@,
        DBAccessError::ValidationError(m) => "ValidationError: "@ + m@,
        DBAccessError::NotFoundError(m) => "NotFoundError: "@ + m@,
    }
}

impl DBAccessError {
    /// Whether the failed request may be tried again.
    pub fn can_retry(&self) -> (r: bool)
        ensures
            r == retryable(*self),
    {
        match self {
            DBAccessError::ConnectionError(f) => match f.kind {
                SqlFailureKind::PoolClosed => true,
                SqlFailureKind::PoolTimedOut => true,
                SqlFailureKind::Io => true,
                SqlFailureKind::Other => false,
            },
            _ => false,
        }
    }

    /// The text of the error.
    pub fn to_string(&self) -> (r: String)
        ensures
            r@ == db_error_text(*self),
    {
        let (head, detail) = match self {
            DBAccessError::ConnectionError(f) => ("ConnectionError: ", f.message.as_str()),
            DBAccessError::QueryError(m) => ("QueryError: ", m.as_str()),
            DBAccessError::ValidationError(m) => ("ValidationError: ", m.as_str()),
            DBAccessError::NotFoundError(m) => ("NotFoundError: ", m.as_str()),
        };
        let mut r = String::from_str(head);
        r.append(detail);
        r
    }
}

} // verus!
