use vstd::prelude::*;

use crate::errors::handler_errors::HandlerError;
use crate::errors::messages::ErrorKey;
use crate::handlers::pagination::{
    check_pagination, page_info, pagination_of, pagination_status_of, Pagination, PaginationStatus,
};
use crate::handlers::request::{
    bad_request, check_path_and_body_id, id_mismatch_info, ids_match, is_bad_request,
    is_bad_request_rejection, reject, Rejection,
};
use crate::text::str_eq;

verus! {

/// What a request for comments asks for.
#[derive(Debug, Clone, Copy, PartialEq, Eq, Structural)]
pub enum QueryTarget {
    All,
    Id,
    TaskId,
    UserId,
}

/// The target that a text names, if any: `all`, `id`, `task_id` or `user_id`.
pub open spec fn target_of(s: Seq<char>) -> Option<QueryTarget> {
    if s == "all"@ {
        Some(QueryTarget::All)
    } else if s == "id"@ {
        Some(QueryTarget::Id)
    } else if s == "task_id"@ {
        Some(QueryTarget::TaskId)
    } else if s == "user_id"@ {
        Some(QueryTarget::UserId)
    } else {
        None
    }
}

impl QueryTarget {
    /// The target that `s` names; any other text is a bad request.
    pub fn str_to_enum(s: &str) -> (r: Result<QueryTarget, HandlerError>)
        ensures
            match target_of(s@) {
                Some(t) => r == Ok::<QueryTarget, HandlerError>(t),
                None => r matches Err(e) && is_bad_request(
                    e,
                    ErrorKey::CommentHandlerGetCommentInvalidTarget,
                    "target: "@ + s@,
                ),
            },
    {
        if str_eq(s, "all") {
            Ok(QueryTarget::All)
        } else if str_eq(s, "id") {
            Ok(QueryTarget::Id)
        } else if str_eq(s, "task_id") {
            Ok(QueryTarget::TaskId)
        } else if str_eq(s, "user_id") {
            Ok(QueryTarget::UserId)
        } else {
            let mut info = String::from_str("target: ");
            info.append(s);
            Err(bad_request(ErrorKey::CommentHandlerGetCommentInvalidTarget, info))
        }
    }
}

/// The query of a request for comments.
#[derive(Debug)]
pub struct GetCommentsQuery {
    pub target: Option<String>,
    pub page: Option<i32>,
    pub page_size: Option<i32>,
    pub id: Option<i64>,
    pub task_id: Option<i64>,
    pub user_id: Option<i64>,
}

/// The target of a query: the one it names, `all` when it names none.
pub open spec fn query_target(q: GetCommentsQuery) -> Option<QueryTarget> {
    match q.target {
        Some(t) => target_of(t@),
        None => Some(QueryTarget::All),
    }
}

/// Whether `e` refuses the target text of `q`.
pub open spec fn is_invalid_target(e: HandlerError, q: GetCommentsQuery) -> bool {
    is_bad_request(e, ErrorKey::CommentHandlerGetCommentInvalidTarget, "target: "@ + q.target->0@)
}

/// The id that a target needs, and the key of the error when it is missing.
pub open spec fn needed_id(q: GetCommentsQuery, t: QueryTarget) -> Option<(Option<i64>, ErrorKey)> {
    match t {
        QueryTarget::All => None,
        QueryTarget::Id => Some((q.id, ErrorKey::CommentHandlerGetCommentNoIdSpecified)),
        QueryTarget::TaskId => Some((q.task_id, ErrorKey::CommentHandlerGetCommentNoTaskIdSpecified)),
        QueryTarget::UserId => Some((q.user_id, ErrorKey::CommentHandlerGetCommentNoUserIdSpecified)),
    }
}

/// Whether the query asks for a page that is not valid.
pub open spec fn has_page_error(q: GetCommentsQuery) -> bool {
    pagination_status_of(q.page, q.page_size) == PaginationStatus::Error
}

/// Whether `j` refuses the page of `q` as a bad request.
pub open spec fn is_invalid_page_rejection(j: Rejection, q: GetCommentsQuery) -> bool {
    is_bad_request_rejection(
        j,
        ErrorKey::CommentHandlerGetCommentInvalidPage,
        page_info(q.page, q.page_size),
    )
}

/// How the comments that a request asks for are found.
#[derive(Debug)]
pub enum CommentLookup {
    /// Every comment, or the comments of the given page.
    All { pagination: Option<Pagination> },
    /// The comments on the task of the given id, or those of the given page.
    ByTaskId { task_id: i64, pagination: Option<Pagination> },
    /// The comments of this user, or those of the given page.
    ByUserId { user_id: i64, pagination: Option<Pagination> },
    /// The comment of this id.
    ById(i64),
}

impl GetCommentsQuery {
    /// The target of the query.
    pub fn target(&self) -> (r: Result<QueryTarget, HandlerError>)
        ensures
            match query_target(*self) {
                Some(t) => r == Ok::<QueryTarget, HandlerError>(t),
                None => r matches Err(e) && is_invalid_target(e, *self),
            },
    {
        match &self.target {
            Some(target) => QueryTarget::str_to_enum(target.as_str()),
            None => Ok(QueryTarget::All),
        }
    }

    /// Checks that the query gives the id that its target needs.
    pub fn validate(&self) -> (r: Result<(), HandlerError>)
        ensures
            match query_target(*self) {
                None => r matches Err(e) && is_invalid_target(e, *self),
                Some(t) => match needed_id(*self, t) {
                    None => r is Ok,
                    Some((id, key)) => if id is Some {
                        r is Ok
                    } else {
                        r matches Err(e) && is_bad_request(e, key, Seq::empty())
                    },
                },
            },
    {
        let target = self.target()?;
        match target {
            QueryTarget::All => Ok(()),
            QueryTarget::Id => {
                if self.id.is_none() {
                    return Err(
                        bad_request(ErrorKey::CommentHandlerGetCommentNoIdSpecified, String::new()),
                    );
                }
                Ok(())
            },
            QueryTarget::TaskId => {
                if self.task_id.is_none() {
                    return Err(
                        bad_request(
                            ErrorKey::CommentHandlerGetCommentNoTaskIdSpecified,
                            String::new(),
                        ),
                    );
                }
                Ok(())
            },
            QueryTarget::UserId => {
                if self.user_id.is_none() {
                    return Err(
                        bad_request(
                            ErrorKey::CommentHandlerGetCommentNoUserIdSpecified,
                            String::new(),
                        ),
                    );
                }
                Ok(())
            },
        }
    }

    /// How to answer the query: its target picks the lookup, the id that the
    /// target needs must be given, and a list of comments must ask for a valid
    /// page or for none.
    pub fn lookup(&self) -> (r: Result<CommentLookup, Rejection>)
        ensures
            match query_target(*self) {
                None => r matches Err(j) && is_invalid_target(j.error, *self) && j.status == 400,
                Some(t) => match needed_id(*self, t) {
                    Some((None, key)) => r matches Err(j) && is_bad_request_rejection(
                        j,
                        key,
                        Seq::empty(),
                    ),
                    Some((Some(i), _)) if t == QueryTarget::Id => r matches Ok(
                        CommentLookup::ById(j),
                    ) && j == i,
                    _ => if has_page_error(*self) {
                        r matches Err(j) && is_invalid_page_rejection(j, *self)
                    } else {
                        match t {
                            QueryTarget::TaskId => r matches Ok(
                                CommentLookup::ByTaskId { task_id, pagination },
                            ) && task_id == self.task_id->0 && pagination == pagination_of(
                                self.page,
                                self.page_size,
                            ),
                            QueryTarget::UserId => r matches Ok(
                                CommentLookup::ByUserId { user_id, pagination },
                            ) && user_id == self.user_id->0 && pagination == pagination_of(
                                self.page,
                                self.page_size,
                            ),
                            _ => r matches Ok(CommentLookup::All { pagination }) && pagination
                                == pagination_of(self.page, self.page_size),
                        }
                    },
                },
            },
    {
        let target = match self.target() {
            Ok(t) => t,
            Err(e) => return Err(reject(e)),
        };
        match self.validate() {
            Ok(()) => {},
            Err(e) => return Err(reject(e)),
        }
        if target == QueryTarget::Id {
            return Ok(CommentLookup::ById(self.id.unwrap()));
        }
        let pagination = match check_pagination(
            ErrorKey::CommentHandlerGetCommentInvalidPage,
            self.page,
            self.page_size,
        ) {
            Ok(p) => p,
            Err(e) => return Err(reject(e)),
        };
        match target {
            QueryTarget::TaskId => Ok(
                CommentLookup::ByTaskId { task_id: self.task_id.unwrap(), pagination },
            ),
            QueryTarget::UserId => Ok(
                CommentLookup::ByUserId { user_id: self.user_id.unwrap(), pagination },
            ),
            _ => Ok(CommentLookup::All { pagination }),
        }
    }
}

/// Checks that the body of a comment update carries the id of its path.
pub fn check_update_ids(path: i64, body_id: Option<i64>) -> (r: Result<(), HandlerError>)
    ensures
        (r is Ok) == (body_id == Some(path)),
        ids_match(path, body_id) ==> r is Ok,
        !ids_match(path, body_id) ==> (r matches Err(e) && is_bad_request(
            e,
            ErrorKey::CommentHandlerPathAndBodyIdMismatch,
            id_mismatch_info("path_id"@, path, "body_id"@, body_id),
        )),
{
    check_path_and_body_id(
        ErrorKey::CommentHandlerPathAndBodyIdMismatch,
        "path_id",
        path,
        "body_id",
        body_id,
    )
}

/// The names of the targets of a comment query: `all`, `id`, `task_id` and `user_id`.
/// Each names its own target, and no other text names one.
pub proof fn lemma_target_names(s: Seq<char>)
    ensures
        target_of("all"@) == Some(QueryTarget::All),
        target_of("id"@) == Some(QueryTarget::Id),
        target_of("task_id"@) == Some(QueryTarget::TaskId),
        target_of("user_id"@) == Some(QueryTarget::UserId),
        target_of(s) is Some ==> s == "all"@ || s == "id"@ || s == "task_id"@ || s == "user_id"@,
{
    reveal_strlit("all");
    reveal_strlit("id");
    reveal_strlit("task_id");
    reveal_strlit("user_id");
    assert("all"@.len() == 3 && "all"@[0] == 'a');
    assert("id"@.len() == 2 && "id"@[0] == 'i');
    assert("task_id"@.len() == 7 && "task_id"@[0] == 't');
    assert("user_id"@.len() == 7 && "user_id"@[0] == 'u');
}

} // verus!
