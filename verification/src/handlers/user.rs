use vstd::prelude::*;

use crate::errors::handler_errors::HandlerError;
use crate::errors::messages::ErrorKey;
use crate::handlers::pagination::{
    check_pagination, page_info, pagination_of, pagination_status_of, Pagination, PaginationStatus,
};
use crate::handlers::request::{
    bad_request, check_path_and_body_id, id_mismatch_info, ids_match, is_bad_request,
    is_bad_request_rejection, reject, Rejection,
};
use crate::handlers::utils::{hash_password, password_digest};
use crate::models::User;
use crate::text::{str_debug, str_debug_text, str_eq};

verus! {

/// What a request for users asks for.
#[derive(Debug, Clone, Copy, PartialEq, Eq, Structural)]
pub enum QueryTarget {
    All,
    Name,
    Id,
}

/// The target that a text names, if any: `all`, `name` or `id`.
pub open spec fn target_of(s: Seq<char>) -> Option<QueryTarget> {
    if s == "all"@ {
        Some(QueryTarget::All)
    } else if s == "name"@ {
        Some(QueryTarget::Name)
    } else if s == "id"@ {
        Some(QueryTarget::Id)
    } else {
        None
    }
}

/// The detail of an invalid target: the text, quoted as `{:?}` quotes it.
pub open spec fn invalid_target_info(s: Seq<char>) -> Seq<char> {
    "target: "@ + str_debug_text(s)
}

/// The error for a target that names nothing, given the target as `{:?}`
/// writes it.
pub fn invalid_target_error(quoted: &str) -> (e: HandlerError)
    ensures
        is_bad_request(e, ErrorKey::UserHandlerGetUsersInvalidTarget, "target: "@ + quoted@),
{
    let mut info = String::from_str("target: ");
    info.append(quoted);
    bad_request(ErrorKey::UserHandlerGetUsersInvalidTarget, info)
}

impl QueryTarget {
    /// The target that `s` names; any other text is a bad request.
    pub fn str_to_enum(s: &str) -> (r: Result<QueryTarget, HandlerError>)
        ensures
            match target_of(s@) {
                Some(t) => r == Ok::<QueryTarget, HandlerError>(t),
                None => r matches Err(e) && is_bad_request(
                    e,
                    ErrorKey::UserHandlerGetUsersInvalidTarget,
                    invalid_target_info(s@),
                ),
            },
    {
        if str_eq(s, "all") {
            Ok(QueryTarget::All)
        } else if str_eq(s, "name") {
            Ok(QueryTarget::Name)
        } else if str_eq(s, "id") {
            Ok(QueryTarget::Id)
        } else {
            let quoted = str_debug(s);
            Err(invalid_target_error(quoted.as_str()))
        }
    }
}

/// The query of a request for users.
#[derive(Debug)]
pub struct GetUsersQuery {
    pub target: Option<String>,
    pub page: Option<i32>,
    pub page_size: Option<i32>,
    pub name: Option<String>,
    pub id: Option<i64>,
}

/// The target of a query: the one it names, `all` when it names none.
pub open spec fn query_target(q: GetUsersQuery) -> Option<QueryTarget> {
    match q.target {
        Some(t) => target_of(t@),
        None => Some(QueryTarget::All),
    }
}

/// Whether `e` refuses the target text of `q`.
pub open spec fn is_invalid_target(e: HandlerError, q: GetUsersQuery) -> bool {
    is_bad_request(e, ErrorKey::UserHandlerGetUsersInvalidTarget, invalid_target_info(q.target->0@))
}

/// How the users that a request asks for are found.
#[derive(Debug)]
pub enum UserLookup {
    /// Every user, or the users of the given page.
    All { pagination: Option<Pagination> },
    /// The user of this name.
    ByName(String),
    /// The user of this id.
    ById(i64),
}

impl GetUsersQuery {
    /// The target of the query.
    pub fn target(&self) -> (r: Result<QueryTarget, HandlerError>)
        ensures
            match query_target(*self) {
                Some(t) => r == Ok::<QueryTarget, HandlerError>(t),
                None => r matches Err(e) && is_invalid_target(e, *self),
            },
    {
        match &self.target {
            Some(target) => QueryTarget::str_to_enum(target.as_str()),
            None => Ok(QueryTarget::All),
        }
    }

    /// Checks that the query gives what its target needs: a name for `name`
    /// and an id for `id`.
    pub fn validate(&self) -> (r: Result<(), HandlerError>)
        ensures
            match query_target(*self) {
                None => r matches Err(e) && is_invalid_target(e, *self),
                Some(QueryTarget::All) => r is Ok,
                Some(QueryTarget::Name) => if self.name is Some {
                    r is Ok
                } else {
                    r matches Err(e) && is_bad_request(
                        e,
                        ErrorKey::UserHandlerGetUsersNoNameSpecified,
                        Seq::empty(),
                    )
                },
                Some(QueryTarget::Id) => if self.id is Some {
                    r is Ok
                } else {
                    r matches Err(e) && is_bad_request(
                        e,
                        ErrorKey::UserHandlerGetUsersNoIdSpecified,
                        Seq::empty(),
                    )
                },
            },
    {
        let target = self.target()?;
        match target {
            QueryTarget::All => Ok(()),
            QueryTarget::Name => {
                if self.name.is_none() {
                    return Err(
                        bad_request(ErrorKey::UserHandlerGetUsersNoNameSpecified, String::new()),
                    );
                }
                Ok(())
            },
            QueryTarget::Id => {
                if self.id.is_none() {
                    return Err(
                        bad_request(ErrorKey::UserHandlerGetUsersNoIdSpecified, String::new()),
                    );
                }
                Ok(())
            },
        }
    }

    /// How to answer the query. A query for a user by id that lacks the id is
    /// refused with the status of an internal server error.
    pub fn lookup(&self) -> (r: Result<UserLookup, Rejection>)
        ensures
            match query_target(*self) {
                None => r matches Err(j) && is_invalid_target(j.error, *self) && j.status == 400,
                Some(QueryTarget::All) => match pagination_status_of(self.page, self.page_size) {
                    PaginationStatus::Error => r matches Err(j) && is_bad_request_rejection(
                        j,
                        ErrorKey::UserHandlerGetUsersInvalidPage,
                        page_info(self.page, self.page_size),
                    ),
                    _ => r matches Ok(UserLookup::All { pagination }) && pagination
                        == pagination_of(self.page, self.page_size),
                },
                Some(QueryTarget::Name) => match self.name {
                    Some(n) => r matches Ok(UserLookup::ByName(m)) && m@ == n@,
                    None => r matches Err(j) && is_bad_request_rejection(
                        j,
                        ErrorKey::UserHandlerGetUsersNoNameSpecified,
                        Seq::empty(),
                    ),
                },
                Some(QueryTarget::Id) => match self.id {
                    Some(i) => r matches Ok(UserLookup::ById(j)) && j == i,
                    None => r matches Err(j) && is_bad_request(
                        j.error,
                        ErrorKey::UserHandlerGetUsersNoIdSpecified,
                        Seq::empty(),
                    ) && j.status == 500,
                },
            },
    {
        let target = match self.target() {
            Ok(t) => t,
            Err(e) => return Err(reject(e)),
        };
        match target {
            QueryTarget::All => match check_pagination(
                ErrorKey::UserHandlerGetUsersInvalidPage,
                self.page,
                self.page_size,
            ) {
                Ok(pagination) => Ok(UserLookup::All { pagination }),
                Err(e) => Err(reject(e)),
            },
            QueryTarget::Name => match self.validate() {
                Ok(()) => Ok(UserLookup::ByName(self.name.clone().unwrap())),
                Err(e) => Err(reject(e)),
            },
            QueryTarget::Id => match self.validate() {
                Ok(()) => Ok(UserLookup::ById(self.id.unwrap())),
                Err(e) => Err(Rejection { error: e, status: 500 }),
            },
        }
    }
}

/// The user that a creation stores: the given name and email, no id, and the
/// given password hashed.
pub fn user_to_create(data: &User) -> (u: User)
    ensures
        u.id is None,
        u.username == data.username,
        u.email == data.email,
        u.password_hash@ == password_digest(data.password_hash@),
{
    User {
        id: None,
        username: data.username.clone(),
        email: data.email.clone(),
        password_hash: hash_password(data.password_hash.as_str()),
    }
}

/// The user that an update of the user `path_id` stores: the given name and
/// email, the id of the path, and the given password hashed.
pub fn user_to_update(path_id: i64, data: &User) -> (u: User)
    ensures
        u.id == Some(path_id),
        u.username == data.username,
        u.email == data.email,
        u.password_hash@ == password_digest(data.password_hash@),
{
    User {
        id: Some(path_id),
        username: data.username.clone(),
        email: data.email.clone(),
        password_hash: hash_password(data.password_hash.as_str()),
    }
}

/// Checks that the body of a user update carries the id of its path.
pub fn check_update_ids(path: i64, body_id: Option<i64>) -> (r: Result<(), HandlerError>)
    ensures
        (r is Ok) == (body_id == Some(path)),
        ids_match(path, body_id) ==> r is Ok,
        !ids_match(path, body_id) ==> (r matches Err(e) && is_bad_request(
            e,
            ErrorKey::UserHandlerPathAndBodyIdMismatch,
            id_mismatch_info("path.id"@, path, "user_data.id"@, body_id),
        )),
{
    check_path_and_body_id(
        ErrorKey::UserHandlerPathAndBodyIdMismatch,
        "path.id",
        path,
        "user_data.id",
        body_id,
    )
}

/// The names of the targets of a user query: `all`, `name` and `id`.
/// Each names its own target, and no other text names one.
pub proof fn lemma_target_names(s: Seq<char>)
    ensures
        target_of("all"@) == Some(QueryTarget::All),
        target_of("name"@) == Some(QueryTarget::Name),
        target_of("id"@) == Some(QueryTarget::Id),
        target_of(s) is Some ==> s == "all"@ || s == "name"@ || s == "id"@,
{
    reveal_strlit("all");
    reveal_strlit("name");
    reveal_strlit("id");
    assert("all"@.len() == 3 && "all"@[0] == 'a');
    assert("name"@.len() == 4 && "name"@[0] == 'n');
    assert("id"@.len() == 2 && "id"@[0] == 'i');
}

} // verus!
