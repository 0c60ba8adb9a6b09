use menahel::errors::db_error::{DBAccessError, SqlFailure, SqlFailureKind};
use menahel::errors::handler_errors::HandlerError;
use menahel::errors::message_def::{add_task_user_error_messages, add_user_handler_error_messages};
use menahel::errors::messages::{
    build_error_messages, get_error_message, get_lang, lookup_message, ErrorKey, MessageTable,
};

#[test]
fn error_message_format() {
    assert_eq!(
        get_error_message(ErrorKey::UserIdInvalid, "id = 0".to_string()),
        "[UserIdInvalid] User ID must be greater than 0: (id = 0)"
    );
    assert_eq!(
        get_error_message(ErrorKey::ProjectHandlerGetProjectsNoIdSpecified, String::new()),
        "[ProjectHandlerGetProjectsNoIdSpecified] No id specified: ()"
    );
    let m = get_error_message(ErrorKey::UserHandlerGetUsersInvalidPage, "x".to_string());
    assert!(m.contains(ErrorKey::UserHandlerGetUsersInvalidPage.to_string().as_str()));
}

#[test]
fn keys_without_message_are_unknown() {
    assert_eq!(
        get_error_message(ErrorKey::TaskHandlerInvalidPath, "p".to_string()),
        "[TaskHandlerInvalidPath] Unknown error: (p)"
    );
    assert_eq!(
        get_error_message(ErrorKey::UserHandlerInvalidQuery, "q".to_string()),
        "[UserHandlerInvalidQuery] Unknown error: (q)"
    );
}

#[test]
fn languages() {
    assert_eq!(get_lang(), "en");
    let table = build_error_messages();
    assert_eq!(lookup_message(&table, ErrorKey::TaskNameEmpty, "jp"), "タスク名は空にできません");
    assert_eq!(lookup_message(&table, ErrorKey::TaskNameEmpty, "en"), "Task name cannot be empty");
    assert_eq!(lookup_message(&table, ErrorKey::TaskNameEmpty, "fr"), "Task name cannot be empty");
    assert_eq!(lookup_message(&table, ErrorKey::TaskHandlerInvalidQuery, "en"), "Unknown error");
}

#[test]
fn message_definitions_fill_a_table() {
    let mut table = MessageTable::new();
    assert!(table.get(ErrorKey::TaskUserGetAllFailed).is_none());
    add_task_user_error_messages(&mut table);
    let m = table.get(ErrorKey::TaskUserGetPaginationNotFound).unwrap();
    assert_eq!(m.en, "No tasks and users found on the specified page");
    assert!(table.get(ErrorKey::UserGetByIdNotFound).is_none());
    add_user_handler_error_messages(&mut table);
    assert_eq!(table.get(ErrorKey::UserGetByIdNotFound).unwrap().en, "User not found");
    assert!(table.get(ErrorKey::TaskUserGetAllFailed).is_some());
}

#[test]
fn db_errors() {
    let f = |kind| DBAccessError::ConnectionError(SqlFailure { kind, message: "down".to_string() });
    assert!(f(SqlFailureKind::PoolClosed).can_retry());
    assert!(f(SqlFailureKind::PoolTimedOut).can_retry());
    assert!(f(SqlFailureKind::Io).can_retry());
    assert!(!f(SqlFailureKind::Other).can_retry());
    assert!(!DBAccessError::QueryError("q".to_string()).can_retry());
    assert!(!DBAccessError::NotFoundError("n".to_string()).can_retry());
    assert_eq!(f(SqlFailureKind::Io).to_string(), "ConnectionError: down");
    assert_eq!(DBAccessError::ValidationError("bad".to_string()).to_string(), "ValidationError: bad");
}

#[test]
fn handler_errors_from_db_errors() {
    let e = HandlerError::from(DBAccessError::NotFoundError("gone".to_string()));
    assert_eq!(e.status_code(), 404);
    assert_eq!(e.to_string(), "NotFound: gone");
    let e = HandlerError::from(DBAccessError::ValidationError("v".to_string()));
    assert_eq!(e.status_code(), 400);
    assert!(e.to_string().contains("BadRequest"));
    let e = HandlerError::from(DBAccessError::QueryError("q".to_string()));
    assert_eq!(e.status_code(), 500);
    assert_eq!(e.to_string(), "InternalServerError: q");
    let e = HandlerError::from(DBAccessError::ConnectionError(SqlFailure {
        kind: SqlFailureKind::Other,
        message: "closed".to_string(),
    }));
    assert_eq!(e.to_string(), "InternalServerError: closed");
}

#[test]
fn key_names_are_their_identifiers() {
    assert_eq!(
        ErrorKey::UserAssignHandlerGetUserAssignsInvalidPage.to_string(),
        "UserAssignHandlerGetUserAssignsInvalidPage"
    );
    assert_eq!(ErrorKey::TaskLevelInvalid.to_string(), "TaskLevelInvalid");
    let keys = [
        ErrorKey::UserIdInvalid,
        ErrorKey::UserNameEmpty,
        ErrorKey::TaskNameEmpty,
        ErrorKey::UserHandlerInvalidQuery,
        ErrorKey::TaskHandlerInvalidQuery,
        ErrorKey::UserHandlerGetUsersInvalidPage,
        ErrorKey::UserAssignHandlerGetUserAssignsInvalidPage,
    ];
    for (i, a) in keys.iter().enumerate() {
        for (j, b) in keys.iter().enumerate() {
            assert_eq!(i == j, a.to_string() == b.to_string());
        }
    }
}
