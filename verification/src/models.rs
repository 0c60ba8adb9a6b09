use vstd::prelude::*;

use crate::handlers::utils::{hash_password, is_sha256_hex, password_digest};
use crate::utils::validate_user_password;

verus! {

/// A user of the service, with the stored form of its password.
#[derive(Debug, PartialEq, Eq)]
pub struct User {
    pub id: Option<i64>,
    pub username: String,
    pub email: String,
    pub password_hash: String,
}

/// The stored form of a password: a password already given as the text of a
/// SHA-256 digest is kept, any other is hashed.
pub open spec fn stored_password(password: Seq<char>) -> Seq<char> {
    if is_sha256_hex(password) {
        password
    } else {
        password_digest(password)
    }
}

impl User {
    /// A new user, not yet stored, whose password is kept in stored form.
    pub fn new(username: String, email: String, password: String) -> (u: Self)
        ensures
            u.id is None,
            u.username == username,
            u.email == email,
            u.password_hash@ == stored_password(password@),
            is_sha256_hex(u.password_hash@),
    {
        let password_hash = match validate_user_password(password.as_str()) {
            Ok(()) => password,
            _ => hash_password(password.as_str()),
        };
        User { id: None, username, email, password_hash }
    }
}

/// A project, which groups tasks.
#[derive(Debug, PartialEq, Eq)]
pub struct Project {
    pub id: Option<i64>,
    pub name: String,
}

impl Project {
    /// A new project, not yet stored.
    pub fn new(name: String) -> (p: Self)
        ensures
            p.id is None,
            p.name == name,
    {
        Project { id: None, name }
    }
}

impl Clone for Project {
    fn clone(&self) -> (r: Self)
        ensures
            r == *self,
    {
        Project { id: self.id, name: self.name.clone() }
    }
}

/// A task of a project.
#[derive(Debug, PartialEq, Eq)]
pub struct Task {
    pub id: Option<i64>,
    pub project_id: i64,
    pub parent_id: Option<i64>,
    pub level: i64,
    pub name: String,
    pub description: Option<String>,
    pub status: i64,
    pub deadline: Option<i64>,
    pub created_at: i64,
    pub updated_at: Option<i64>,
}

impl Task {
    /// A new task, not yet stored: it has no id, its creation time is 0 and it
    /// was never updated.
    pub fn new(
        project_id: i64,
        parent_id: Option<i64>,
        level: i64,
        name: String,
        description: Option<String>,
        status: i64,
        deadline: Option<i64>,
    ) -> (t: Self)
        ensures
            t.id is None,
            t.project_id == project_id,
            t.parent_id == parent_id,
            t.level == level,
            t.name == name,
            t.description == description,
            t.status == status,
            t.deadline == deadline,
            t.created_at == 0,
            t.updated_at is None,
    {
        Task {
            id: None,
            project_id,
            parent_id,
            level,
            name,
            description,
            status,
            deadline,
            created_at: 0,
            updated_at: None,
        }
    }
}

/// Conditions that tasks are selected by; a condition that is `None` selects
/// every task.
#[derive(Debug, PartialEq, Eq)]
pub struct TaskFilter {
    pub project_id: Option<i64>,
    pub parent_id: Option<i64>,
    pub level: Option<i64>,
    pub name: Option<String>,
    pub description: Option<String>,
    pub status: Option<i64>,
    pub deadline_from: Option<i64>,
    pub deadline_to: Option<i64>,
    pub created_at_from: Option<i64>,
    pub created_at_to: Option<i64>,
    pub updated_at_from: Option<i64>,
    pub updated_at_to: Option<i64>,
}

/// Whether a task filter sets no condition.
pub open spec fn task_filter_is_empty(f: TaskFilter) -> bool {
    &&& f.project_id is None
    &&& f.parent_id is None
    &&& f.level is None
    &&& f.name is None
    &&& f.description is None
    &&& f.status is None
    &&& f.deadline_from is None
    &&& f.deadline_to is None
    &&& f.created_at_from is None
    &&& f.created_at_to is None
    &&& f.updated_at_from is None
    &&& f.updated_at_to is None
}

impl TaskFilter {
    /// A filter that sets no condition.
    pub fn new() -> (f: Self)
        ensures
            task_filter_is_empty(f),
    {
        TaskFilter {
            project_id: None,
            parent_id: None,
            level: None,
            name: None,
            description: None,
            status: None,
            deadline_from: None,
            deadline_to: None,
            created_at_from: None,
            created_at_to: None,
            updated_at_from: None,
            updated_at_to: None,
        }
    }

    /// Whether the filter sets no condition.
    pub fn is_empty(&self) -> (r: bool)
        ensures
            r == task_filter_is_empty(*self),
    {
        self.project_id.is_none() && self.parent_id.is_none() && self.level.is_none()
            && self.name.is_none() && self.description.is_none() && self.status.is_none()
            && self.deadline_from.is_none() && self.deadline_to.is_none()
            && self.created_at_from.is_none() && self.created_at_to.is_none()
            && self.updated_at_from.is_none() && self.updated_at_to.is_none()
    }
}

/// A task as the service lists it for the task tree of a project.
#[derive(Debug, PartialEq, Eq)]
pub struct TaskWithUser {
    pub task_id: i64,
    pub project_id: i64,
    pub parent_id: Option<i64>,
    pub level: i64,
    pub name: String,
    pub description: Option<String>,
    pub status: i64,
    pub deadline: Option<i64>,
    pub created_at: i64,
    pub updated_at: Option<i64>,
}

impl Clone for TaskWithUser {
    fn clone(&self) -> (r: Self)
        ensures
            r == *self,
    {
        TaskWithUser {
            task_id: self.task_id,
            project_id: self.project_id,
            parent_id: self.parent_id,
            level: self.level,
            name: self.name.clone(),
            description: self.description.clone(),
            status: self.status,
            deadline: self.deadline,
            created_at: self.created_at,
            updated_at: self.updated_at,
        }
    }
}

/// Conditions that user assignments are selected by.
#[derive(Debug, PartialEq, Eq)]
pub struct UserAssignFilter {
    pub user_id: Option<i64>,
    pub task_id: Option<i64>,
}

impl UserAssignFilter {
    /// Whether the filter sets no condition.
    pub fn is_empty(&self) -> (r: bool)
        ensures
            r == (self.user_id is None && self.task_id is None),
    {
        self.user_id.is_none() && self.task_id.is_none()
    }
}

/// A password already in stored form is kept as it is, so a user made again
/// from a stored user keeps its password.
pub proof fn lemma_stored_password_is_kept(password: Seq<char>)
    requires
        is_sha256_hex(password),
    ensures
        stored_password(password) == password,
{
}

} // verus!
