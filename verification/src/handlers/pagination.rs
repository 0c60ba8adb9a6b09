use vstd::prelude::*;

use crate::errors::handler_errors::{handler_error_text, HandlerError};
use crate::errors::messages::ErrorKey;
use crate::handlers::request::{bad_request, is_bad_request};
use crate::text::{decimal, i64_to_decimal};

verus! {

/// The most items that one page may hold.
pub const MAX_PAGE_SIZE: i32 = 100;

/// What the page and page size of a request ask for.
#[derive(Debug, Clone, Copy, PartialEq, Eq, Structural)]
pub enum PaginationStatus {
    /// A valid page: both are given, the page is at least 1 and the page size
    /// lies between 1 and 100.
    Active,
    /// No page: neither is given, and every item is listed.
    Inactive,
    /// Anything else.
    Error,
}

/// What a page and a page size ask for.
pub open spec fn pagination_status_of(page: Option<i32>, page_size: Option<i32>) -> PaginationStatus {
    match (page, page_size) {
        (Some(p), Some(s)) => if p >= 1 && 1 <= s <= MAX_PAGE_SIZE {
            PaginationStatus::Active
        } else {
            PaginationStatus::Error
        },
        (None, None) => PaginationStatus::Inactive,
        _ => PaginationStatus::Error,
    }
}

/// What a page and a page size ask for.
pub fn pagination_status(page: Option<i32>, page_size: Option<i32>) -> (r: PaginationStatus)
    ensures
        r == pagination_status_of(page, page_size),
{
    match (page, page_size) {
        (Some(p), Some(s)) => if p >= 1 && 1 <= s && s <= MAX_PAGE_SIZE {
            PaginationStatus::Active
        } else {
            PaginationStatus::Error
        },
        (None, None) => PaginationStatus::Inactive,
        _ => PaginationStatus::Error,
    }
}

/// The page that an answer reports.
#[derive(Debug, Clone, Copy, PartialEq, Eq, Structural)]
pub struct Pagination {
    pub current_page: i32,
    pub page_size: i32,
}

/// The page that an answer reports: the requested page where it is valid,
/// none otherwise.
pub open spec fn pagination_of(page: Option<i32>, page_size: Option<i32>) -> Option<Pagination> {
    if pagination_status_of(page, page_size) == PaginationStatus::Active {
        Some(Pagination { current_page: page->0, page_size: page_size->0 })
    } else {
        None
    }
}

/// The `Debug` text of an optional `i32`: `Some(<n>)` or `None`.
pub open spec fn option_i32_debug_text(o: Option<i32>) -> Seq<char> {
    match o {
        Some(n) => "Some("@ + decimal(n as int) + ")"@,
        None => "None"@,
    }
}

/// Formats an optional `i32` as `{:?}` does.
pub fn option_i32_debug(o: Option<i32>) -> (r: String)
    ensures
        r@ == option_i32_debug_text(o),
{
    match o {
        Some(n) => {
            let mut r = String::from_str("Some(");
            let digits = i64_to_decimal(n as i64);
            r.append(digits.as_str());
            r.append(")");
            r
        },
        None => String::from_str("None"),
    }
}

/// The detail of an invalid page: `page: <page>, page_size: <page size>`,
/// each as `{:?}` writes it.
pub open spec fn page_info(page: Option<i32>, page_size: Option<i32>) -> Seq<char> {
    "page: "@ + option_i32_debug_text(page) + ", page_size: "@ + option_i32_debug_text(page_size)
}

/// Checks the page of a request: a valid page is reported, no page lists
/// every item, and anything else is a bad request of `key` that names the
/// page and the page size.
pub fn check_pagination(key: ErrorKey, page: Option<i32>, page_size: Option<i32>) -> (r: Result<
    Option<Pagination>,
    HandlerError,
>)
    ensures
        match pagination_status_of(page, page_size) {
            PaginationStatus::Error => r matches Err(e) && is_bad_request(
                e,
                key,
                page_info(page, page_size),
            ),
            _ => r == Ok::<Option<Pagination>, HandlerError>(pagination_of(page, page_size)),
        },
{
    match pagination_status(page, page_size) {
        PaginationStatus::Active => Ok(
            Some(Pagination { current_page: page.unwrap(), page_size: page_size.unwrap() }),
        ),
        PaginationStatus::Inactive => Ok(None),
        PaginationStatus::Error => {
            let mut info = String::from_str("page: ");
            let p = option_i32_debug(page);
            info.append(p.as_str());
            info.append(", page_size: ");
            let s = option_i32_debug(page_size);
            info.append(s.as_str());
            Err(bad_request(key, info))
        },
    }
}

/// The answer to a request for a list: the items, how many there are, and
/// the page where one was asked for.
#[derive(Debug)]
pub struct ListAnswer<T> {
    pub results: Vec<T>,
    pub count: i64,
    pub pagination: Option<Pagination>,
}

/// The answer that lists `results` on the page `pagination`.
pub fn list_answer<T>(results: Vec<T>, pagination: Option<Pagination>) -> (a: ListAnswer<T>)
    requires
        results@.len() <= i64::MAX,
    ensures
        a.results@ == results@,
        a.count == results@.len(),
        a.pagination == pagination,
{
    let count = results.len() as i64;
    ListAnswer { results, count, pagination }
}

/// The body of an error answer: the text of the error and the result code 1.
#[derive(Debug)]
pub struct ErrorAnswer {
    pub message: String,
    pub rc: i64,
}

/// The body of the answer to `error`.
pub fn error_answer(error: &HandlerError) -> (a: ErrorAnswer)
    ensures
        a.message@ == handler_error_text(*error),
        a.rc == 1,
{
    ErrorAnswer { message: error.to_string(), rc: 1 }
}

/// A request lists one page exactly when it gives a page of at least 1 and a
/// page size from 1 to 100, lists everything exactly when it gives neither,
/// and is refused otherwise; the page it reports is the one it asked for.
pub proof fn lemma_pagination_rule(page: Option<i32>, page_size: Option<i32>)
    ensures
        (pagination_status_of(page, page_size) == PaginationStatus::Active) == (page is Some
            && page_size is Some && page->0 >= 1 && 1 <= page_size->0 && page_size->0 <= 100),
        (pagination_status_of(page, page_size) == PaginationStatus::Inactive) == (page is None
            && page_size is None),
        pagination_of(page, page_size) matches Some(g) ==> (page == Some(g.current_page)
            && page_size == Some(g.page_size)),
        (pagination_of(page, page_size) is Some) == (pagination_status_of(page, page_size)
            == PaginationStatus::Active),
{
}

} // verus!
