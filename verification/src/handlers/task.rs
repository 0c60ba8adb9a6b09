use vstd::prelude::*;

use crate::errors::handler_errors::HandlerError;
use crate::errors::messages::ErrorKey;
use crate::handlers::pagination::{
    check_pagination, page_info, pagination_of, pagination_status_of, Pagination, PaginationStatus,
};
use crate::handlers::request::{
    bad_request, check_path_and_body_id, id_mismatch_info, ids_match, is_bad_request,
    is_bad_request_rejection, reject, Rejection,
};
use crate::models::TaskFilter;
use crate::text::str_eq;

verus! {

/// What a request for tasks asks for.
#[derive(Debug, Clone, Copy, PartialEq, Eq, Structural)]
pub enum QueryTarget {
    All,
    Id,
    Filter,
}

/// The target that a text names, if any: `all`, `id` or `filter`.
pub open spec fn target_of(s: Seq<char>) -> Option<QueryTarget> {
    if s == "all"@ {
        Some(QueryTarget::All)
    } else if s == "id"@ {
        Some(QueryTarget::Id)
    } else if s == "filter"@ {
        Some(QueryTarget::Filter)
    } else {
        None
    }
}

impl QueryTarget {
    /// The target that `s` names; any other text is a bad request.
    pub fn str_to_enum(s: &str) -> (r: Result<QueryTarget, HandlerError>)
        ensures
            match target_of(s@) {
                Some(t) => r == Ok::<QueryTarget, HandlerError>(t),
                None => r matches Err(e) && is_bad_request(
                    e,
                    ErrorKey::TaskHandlerGetTasksInvalidTarget,
                    s@,
                ),
            },
    {
        if str_eq(s, "all") {
            Ok(QueryTarget::All)
        } else if str_eq(s, "id") {
            Ok(QueryTarget::Id)
        } else if str_eq(s, "filter") {
            Ok(QueryTarget::Filter)
        } else {
            Err(bad_request(ErrorKey::TaskHandlerGetTasksInvalidTarget, String::from_str(s)))
        }
    }
}

/// The query of a request for tasks.
#[derive(Debug)]
pub struct GetTasksQuery {
    pub target: Option<String>,
    pub page: Option<i32>,
    pub page_size: Option<i32>,
    pub id: Option<i64>,
    pub project_id: Option<i64>,
    pub parent_id: Option<i64>,
    pub level: Option<i64>,
    pub name: Option<String>,
    pub description: Option<String>,
    pub status: Option<i64>,
    pub deadline_from: Option<i64>,
    pub deadline_to: Option<i64>,
    pub created_at_from: Option<i64>,
    pub created_at_to: Option<i64>,
    pub updated_at_from: Option<i64>,
    pub updated_at_to: Option<i64>,
}

/// The target of a query: the one it names, `all` when it names none.
pub open spec fn query_target(q: GetTasksQuery) -> Option<QueryTarget> {
    match q.target {
        Some(t) => target_of(t@),
        None => Some(QueryTarget::All),
    }
}

/// Whether `e` refuses the target text of `q`.
pub open spec fn is_invalid_target(e: HandlerError, q: GetTasksQuery) -> bool {
    is_bad_request(e, ErrorKey::TaskHandlerGetTasksInvalidTarget, q.target->0@)
}

/// Whether a query sets no condition on tasks.
pub open spec fn sets_no_condition(q: GetTasksQuery) -> bool {
    &&& q.project_id is None
    &&& q.parent_id is None
    &&& q.level is None
    &&& q.name is None
    &&& q.description is None
    &&& q.status is None
    &&& q.deadline_from is None
    &&& q.deadline_to is None
    &&& q.created_at_from is None
    &&& q.created_at_to is None
    &&& q.updated_at_from is None
    &&& q.updated_at_to is None
}

/// Whether a filter holds exactly the conditions of a query.
pub open spec fn filter_of_query(f: TaskFilter, q: GetTasksQuery) -> bool {
    &&& f.project_id == q.project_id
    &&& f.parent_id == q.parent_id
    &&& f.level == q.level
    &&& f.name == q.name
    &&& f.description == q.description
    &&& f.status == q.status
    &&& f.deadline_from == q.deadline_from
    &&& f.deadline_to == q.deadline_to
    &&& f.created_at_from == q.created_at_from
    &&& f.created_at_to == q.created_at_to
    &&& f.updated_at_from == q.updated_at_from
    &&& f.updated_at_to == q.updated_at_to
}

/// How the tasks that a request asks for are found.
#[derive(Debug)]
pub enum TaskLookup {
    /// Every task, or those that the filter selects; a page at a time where
    /// the request gives a page.
    AllOrFiltered { filter: Option<TaskFilter>, pagination: Option<Pagination> },
    /// The task of this id.
    ById(i64),
}

impl GetTasksQuery {
    /// The target of the query.
    pub fn target(&self) -> (r: Result<QueryTarget, HandlerError>)
        ensures
            match query_target(*self) {
                Some(t) => r == Ok::<QueryTarget, HandlerError>(t),
                None => r matches Err(e) && is_invalid_target(e, *self),
            },
    {
        match &self.target {
            Some(target) => QueryTarget::str_to_enum(target.as_str()),
            None => Ok(QueryTarget::All),
        }
    }

    /// Checks that a query for one task gives its id.
    pub fn validate(&self) -> (r: Result<(), HandlerError>)
        ensures
            match query_target(*self) {
                None => r matches Err(e) && is_invalid_target(e, *self),
                Some(QueryTarget::Id) => if self.id is Some {
                    r is Ok
                } else {
                    r matches Err(e) && is_bad_request(
                        e,
                        ErrorKey::TaskHandlerGetTasksNoIdSpecified,
                        Seq::empty(),
                    )
                },
                Some(_) => r is Ok,
            },
    {
        let target = self.target()?;
        match target {
            QueryTarget::All => Ok(()),
            QueryTarget::Id => {
                if self.id.is_none() {
                    return Err(
                        bad_request(ErrorKey::TaskHandlerGetTasksNoIdSpecified, String::new()),
                    );
                }
                Ok(())
            },
            QueryTarget::Filter => Ok(()),
        }
    }

    /// The conditions of the query, or `None` where it sets none.
    pub fn get_task_filter(&self) -> (r: Option<TaskFilter>)
        ensures
            sets_no_condition(*self) ==> r is None,
            !sets_no_condition(*self) ==> (r matches Some(f) && filter_of_query(f, *self)),
            r matches Some(f) ==> f.project_id == self.project_id,
            r matches Some(f) ==> f.parent_id == self.parent_id,
            r matches Some(f) ==> f.level == self.level,
            r matches Some(f) ==> f.name == self.name,
            r matches Some(f) ==> f.description == self.description,
            r matches Some(f) ==> f.status == self.status,
            r matches Some(f) ==> f.deadline_from == self.deadline_from,
            r matches Some(f) ==> f.deadline_to == self.deadline_to,
            r matches Some(f) ==> f.created_at_from == self.created_at_from,
            r matches Some(f) ==> f.created_at_to == self.created_at_to,
            r matches Some(f) ==> f.updated_at_from == self.updated_at_from,
            r matches Some(f) ==> f.updated_at_to == self.updated_at_to,
            self.project_id is Some ==> (r is Some),
            self.parent_id is Some ==> (r is Some),
            self.level is Some ==> (r is Some),
            self.name is Some ==> (r is Some),
            self.description is Some ==> (r is Some),
            self.status is Some ==> (r is Some),
            self.deadline_from is Some ==> (r is Some),
            self.deadline_to is Some ==> (r is Some),
            self.created_at_from is Some ==> (r is Some),
            self.created_at_to is Some ==> (r is Some),
            self.updated_at_from is Some ==> (r is Some),
            self.updated_at_to is Some ==> (r is Some),
    {
        let filter = TaskFilter {
            project_id: self.project_id,
            parent_id: self.parent_id,
            level: self.level,
            name: self.name.clone(),
            description: self.description.clone(),
            status: self.status,
            deadline_from: self.deadline_from,
            deadline_to: self.deadline_to,
            created_at_from: self.created_at_from,
            created_at_to: self.created_at_to,
            updated_at_from: self.updated_at_from,
            updated_at_to: self.updated_at_to,
        };
        if filter.is_empty() {
            None
        } else {
            Some(filter)
        }
    }

    /// How to answer the query. A query for one task that lacks its id is
    /// refused with the status of an internal server error.
    pub fn lookup(&self) -> (r: Result<TaskLookup, Rejection>)
        ensures
            match query_target(*self) {
                None => r matches Err(j) && is_invalid_target(j.error, *self) && j.status == 400,
                Some(QueryTarget::Id) => match self.id {
                    Some(i) => r matches Ok(TaskLookup::ById(j)) && j == i,
                    None => r matches Err(j) && is_bad_request(
                        j.error,
                        ErrorKey::TaskHandlerGetTasksNoIdSpecified,
                        Seq::empty(),
                    ) && j.status == 500,
                },
                Some(_) => match pagination_status_of(self.page, self.page_size) {
                    PaginationStatus::Error => r matches Err(j) && is_bad_request_rejection(
                        j,
                        ErrorKey::TaskHandlerGetTasksInvalidPage,
                        page_info(self.page, self.page_size),
                    ),
                    _ => r matches Ok(TaskLookup::AllOrFiltered { filter, pagination })
                        && pagination == pagination_of(self.page, self.page_size) && (
                    sets_no_condition(*self) ==> filter is None) && (!sets_no_condition(*self)
                        ==> (filter matches Some(f) && filter_of_query(f, *self))),
                },
            },
    {
        let target = match self.target() {
            Ok(t) => t,
            Err(e) => return Err(reject(e)),
        };
        match target {
            QueryTarget::Id => {
                match self.validate() {
                    Ok(()) => Ok(TaskLookup::ById(self.id.unwrap())),
                    Err(e) => Err(Rejection { error: e, status: 500 }),
                }
            },
            _ => {
                let filter = self.get_task_filter();
                match check_pagination(
                    ErrorKey::TaskHandlerGetTasksInvalidPage,
                    self.page,
                    self.page_size,
                ) {
                    Ok(pagination) => Ok(TaskLookup::AllOrFiltered { filter, pagination }),
                    Err(e) => Err(reject(e)),
                }
            },
        }
    }
}

/// Checks that the body of a task update carries the id of its path.
pub fn check_update_ids(path: i64, body_id: Option<i64>) -> (r: Result<(), HandlerError>)
    ensures
        (r is Ok) == (body_id == Some(path)),
        ids_match(path, body_id) ==> r is Ok,
        !ids_match(path, body_id) ==> (r matches Err(e) && is_bad_request(
            e,
            ErrorKey::TaskHandlerPathAndBodyIdMismatch,
            id_mismatch_info("path.id"@, path, "task_data.id"@, body_id),
        )),
{
    check_path_and_body_id(
        ErrorKey::TaskHandlerPathAndBodyIdMismatch,
        "path.id",
        path,
        "task_data.id",
        body_id,
    )
}

/// The names of the targets of a task query: `all`, `id` and `filter`.
/// Each names its own target, and no other text names one.
pub proof fn lemma_target_names(s: Seq<char>)
    ensures
        target_of("all"@) == Some(QueryTarget::All),
        target_of("id"@) == Some(QueryTarget::Id),
        target_of("filter"@) == Some(QueryTarget::Filter),
        target_of(s) is Some ==> s == "all"@ || s == "id"@ || s == "filter"@,
{
    reveal_strlit("all");
    reveal_strlit("id");
    reveal_strlit("filter");
    assert("all"@.len() == 3 && "all"@[0] == 'a');
    assert("id"@.len() == 2 && "id"@[0] == 'i');
    assert("filter"@.len() == 6 && "filter"@[0] == 'f');
}

/// The filter of a task query carries each condition that the query sets,
/// each in the field of the same name, and a query that sets any condition
/// is answered through a filter.
pub proof fn lemma_filter_carries_conditions(q: GetTasksQuery, f: TaskFilter)
    ensures
        filter_of_query(f, q) ==> f.project_id == q.project_id,
        filter_of_query(f, q) ==> f.parent_id == q.parent_id,
        filter_of_query(f, q) ==> f.level == q.level,
        filter_of_query(f, q) ==> f.name == q.name,
        filter_of_query(f, q) ==> f.description == q.description,
        filter_of_query(f, q) ==> f.status == q.status,
        filter_of_query(f, q) ==> f.deadline_from == q.deadline_from,
        filter_of_query(f, q) ==> f.deadline_to == q.deadline_to,
        filter_of_query(f, q) ==> f.created_at_from == q.created_at_from,
        filter_of_query(f, q) ==> f.created_at_to == q.created_at_to,
        filter_of_query(f, q) ==> f.updated_at_from == q.updated_at_from,
        filter_of_query(f, q) ==> f.updated_at_to == q.updated_at_to,
        q.project_id is Some ==> !sets_no_condition(q),
        q.parent_id is Some ==> !sets_no_condition(q),
        q.level is Some ==> !sets_no_condition(q),
        q.name is Some ==> !sets_no_condition(q),
        q.description is Some ==> !sets_no_condition(q),
        q.status is Some ==> !sets_no_condition(q),
        q.deadline_from is Some ==> !sets_no_condition(q),
        q.deadline_to is Some ==> !sets_no_condition(q),
        q.created_at_from is Some ==> !sets_no_condition(q),
        q.created_at_to is Some ==> !sets_no_condition(q),
        q.updated_at_from is Some ==> !sets_no_condition(q),
        q.updated_at_to is Some ==> !sets_no_condition(q),
{
}

} // verus!
