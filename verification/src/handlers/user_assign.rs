use vstd::prelude::*;

use crate::errors::handler_errors::HandlerError;
use crate::errors::messages::ErrorKey;
use crate::handlers::pagination::{
    check_pagination, page_info, pagination_of, pagination_status_of, Pagination, PaginationStatus,
};
use crate::handlers::request::{
    bad_request, check_path_and_body_id, id_mismatch_info, ids_match, is_bad_request,
    is_bad_request_rejection, reject, Rejection,
};
use crate::models::UserAssignFilter;
use crate::text::{str_debug, str_debug_text, str_eq};

verus! {

/// What a request for user assignments asks for.
#[derive(Debug, Clone, Copy, PartialEq, Eq, Structural)]
pub enum QueryTarget {
    All,
    Id,
    Filter,
}

/// The target that a text names, if any: `all`, `id` or `filter`.
pub open spec fn target_of(s: Seq<char>) -> Option<QueryTarget> {
    if s == "all"@ {
        Some(QueryTarget::All)
    } else if s == "id"@ {
        Some(QueryTarget::Id)
    } else if s == "filter"@ {
        Some(QueryTarget::Filter)
    } else {
        None
    }
}

/// The detail of an invalid target: the text, quoted as `{:?}` quotes it.
pub open spec fn invalid_target_info(s: Seq<char>) -> Seq<char> {
    "target: "@ + str_debug_text(s)
}

/// The error for a target that names nothing, given the target as `{:?}`
/// writes it.
pub fn invalid_target_error(quoted: &str) -> (e: HandlerError)
    ensures
        is_bad_request(e, ErrorKey::UserAssignHandlerGetUserAssignsInvalidTarget, "target: "@ + quoted@),
{
    let mut info = String::from_str("target: ");
    info.append(quoted);
    bad_request(ErrorKey::UserAssignHandlerGetUserAssignsInvalidTarget, info)
}

impl QueryTarget {
    /// The target that `s` names; any other text is a bad request.
    pub fn str_to_enum(s: &str) -> (r: Result<QueryTarget, HandlerError>)
        ensures
            match target_of(s@) {
                Some(t) => r == Ok::<QueryTarget, HandlerError>(t),
                None => r matches Err(e) && is_bad_request(
                    e,
                    ErrorKey::UserAssignHandlerGetUserAssignsInvalidTarget,
                    invalid_target_info(s@),
                ),
            },
    {
        if str_eq(s, "all") {
            Ok(QueryTarget::All)
        } else if str_eq(s, "id") {
            Ok(QueryTarget::Id)
        } else if str_eq(s, "filter") {
            Ok(QueryTarget::Filter)
        } else {
            let quoted = str_debug(s);
            Err(invalid_target_error(quoted.as_str()))
        }
    }
}

/// The query of a request for user assignments.
#[derive(Debug)]
pub struct GetUserAssignsQuery {
    pub target: Option<String>,
    pub page: Option<i32>,
    pub page_size: Option<i32>,
    pub id: Option<i64>,
    pub userid: Option<i64>,
    pub taskid: Option<i64>,
}

/// The target of a query: the one it names, `all` when it names none.
pub open spec fn query_target(q: GetUserAssignsQuery) -> Option<QueryTarget> {
    match q.target {
        Some(t) => target_of(t@),
        None => Some(QueryTarget::All),
    }
}

/// Whether `e` refuses the target text of `q`.
pub open spec fn is_invalid_target(e: HandlerError, q: GetUserAssignsQuery) -> bool {
    is_bad_request(
        e,
        ErrorKey::UserAssignHandlerGetUserAssignsInvalidTarget,
        invalid_target_info(q.target->0@),
    )
}

/// The filter that a query asks for: `None` where it names neither a user
/// nor a task.
pub open spec fn query_filter(q: GetUserAssignsQuery) -> Option<UserAssignFilter> {
    if q.userid is None && q.taskid is None {
        None
    } else {
        Some(UserAssignFilter { user_id: q.userid, task_id: q.taskid })
    }
}

/// How the user assignments that a request asks for are found.
#[derive(Debug)]
pub enum UserAssignLookup {
    /// Every assignment, or those that the filter selects; a page at a time
    /// where the request gives a page.
    AllOrFiltered { filter: Option<UserAssignFilter>, pagination: Option<Pagination> },
    /// The assignment of this id.
    ById(i64),
}

impl GetUserAssignsQuery {
    /// The target of the query.
    pub fn target(&self) -> (r: Result<QueryTarget, HandlerError>)
        ensures
            match query_target(*self) {
                Some(t) => r == Ok::<QueryTarget, HandlerError>(t),
                None => r matches Err(e) && is_invalid_target(e, *self),
            },
    {
        match &self.target {
            Some(target) => QueryTarget::str_to_enum(target.as_str()),
            None => Ok(QueryTarget::All),
        }
    }

    /// Checks that a query for one assignment gives its id.
    pub fn validate(&self) -> (r: Result<(), HandlerError>)
        ensures
            match query_target(*self) {
                None => r matches Err(e) && is_invalid_target(e, *self),
                Some(QueryTarget::Id) => if self.id is Some {
                    r is Ok
                } else {
                    r matches Err(e) && is_bad_request(
                        e,
                        ErrorKey::UserAssignHandlerGetUserAssignsNoIdSpecified,
                        Seq::empty(),
                    )
                },
                Some(_) => r is Ok,
            },
    {
        let target = self.target()?;
        match target {
            QueryTarget::All => Ok(()),
            QueryTarget::Id => {
                if self.id.is_none() {
                    return Err(
                        bad_request(
                            ErrorKey::UserAssignHandlerGetUserAssignsNoIdSpecified,
                            String::new(),
                        ),
                    );
                }
                Ok(())
            },
            QueryTarget::Filter => Ok(()),
        }
    }

    /// The user and task that the query names, or `None` where it names
    /// neither.
    pub fn get_user_assign_filter(&self) -> (r: Option<UserAssignFilter>)
        ensures
            r == query_filter(*self),
            r matches Some(f) ==> f.user_id == self.userid,
            r matches Some(f) ==> f.task_id == self.taskid,
            self.userid is Some ==> (r is Some),
            self.taskid is Some ==> (r is Some),
    {
        let filter = UserAssignFilter { user_id: self.userid, task_id: self.taskid };
        if filter.is_empty() {
            None
        } else {
            Some(filter)
        }
    }

    /// How to answer the query.
    pub fn lookup(&self) -> (r: Result<UserAssignLookup, Rejection>)
        ensures
            match query_target(*self) {
                None => r matches Err(j) && is_invalid_target(j.error, *self) && j.status == 400,
                Some(QueryTarget::Id) => match self.id {
                    Some(i) => r matches Ok(UserAssignLookup::ById(j)) && j == i,
                    None => r matches Err(j) && is_bad_request_rejection(
                        j,
                        ErrorKey::UserAssignHandlerGetUserAssignsNoIdSpecified,
                        Seq::empty(),
                    ),
                },
                Some(_) => match pagination_status_of(self.page, self.page_size) {
                    PaginationStatus::Error => r matches Err(j) && is_bad_request_rejection(
                        j,
                        ErrorKey::UserAssignHandlerGetUserAssignsInvalidPage,
                        page_info(self.page, self.page_size),
                    ),
                    _ => r matches Ok(UserAssignLookup::AllOrFiltered { filter, pagination })
                        && filter == query_filter(*self) && pagination == pagination_of(
                        self.page,
                        self.page_size,
                    ),
                },
            },
    {
        let target = match self.target() {
            Ok(t) => t,
            Err(e) => return Err(reject(e)),
        };
        match target {
            QueryTarget::Id => match self.validate() {
                Ok(()) => Ok(UserAssignLookup::ById(self.id.unwrap())),
                Err(e) => Err(reject(e)),
            },
            _ => {
                let filter = self.get_user_assign_filter();
                match check_pagination(
                    ErrorKey::UserAssignHandlerGetUserAssignsInvalidPage,
                    self.page,
                    self.page_size,
                ) {
                    Ok(pagination) => Ok(UserAssignLookup::AllOrFiltered { filter, pagination }),
                    Err(e) => Err(reject(e)),
                }
            },
        }
    }
}

/// Checks that the body of an assignment update carries the id of its path.
pub fn check_update_ids(path: i64, body_id: Option<i64>) -> (r: Result<(), HandlerError>)
    ensures
        (r is Ok) == (body_id == Some(path)),
        ids_match(path, body_id) ==> r is Ok,
        !ids_match(path, body_id) ==> (r matches Err(e) && is_bad_request(
            e,
            ErrorKey::UserAssignHandlerPathAndBodyIdMismatch,
            id_mismatch_info("path.id"@, path, "user_assign_data.id"@, body_id),
        )),
{
    check_path_and_body_id(
        ErrorKey::UserAssignHandlerPathAndBodyIdMismatch,
        "path.id",
        path,
        "user_assign_data.id",
        body_id,
    )
}

/// The names of the targets of a user assignment query: `all`, `id` and `filter`.
/// Each names its own target, and no other text names one.
pub proof fn lemma_target_names(s: Seq<char>)
    ensures
        target_of("all"@) == Some(QueryTarget::All),
        target_of("id"@) == Some(QueryTarget::Id),
        target_of("filter"@) == Some(QueryTarget::Filter),
        target_of(s) is Some ==> s == "all"@ || s == "id"@ || s == "filter"@,
{
    reveal_strlit("all");
    reveal_strlit("id");
    reveal_strlit("filter");
    assert("all"@.len() == 3 && "all"@[0] == 'a');
    assert("id"@.len() == 2 && "id"@[0] == 'i');
    assert("filter"@.len() == 6 && "filter"@[0] == 'f');
}

/// An assignment query that names a user or a task filters on exactly the
/// user and the task it names; only one that names neither lists every
/// assignment.
pub proof fn lemma_filter_names_user_and_task(q: GetUserAssignsQuery)
    ensures
        q.taskid is Some ==> (query_filter(q) is Some),
        q.userid is Some ==> (query_filter(q) is Some),
        query_filter(q) matches Some(f) ==> f.task_id == q.taskid,
        query_filter(q) matches Some(f) ==> f.user_id == q.userid,
        q.userid is None && q.taskid is None ==> (query_filter(q) is None),
{
}

} // verus!
