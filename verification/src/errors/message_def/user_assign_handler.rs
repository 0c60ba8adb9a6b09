use vstd::prelude::*;

use crate::errors::messages::{ErrorKey, MessageTable};

verus! {

/// The messages that `add_user_assign_handler_error_messages` adds: for each key, its English and Japanese text.
pub open spec fn user_assign_handler_error_messages() -> Map<ErrorKey, (Seq<char>, Seq<char>)> {
    map![
        ErrorKey::UserAssignHandlerGetUserAssignsInvalidPage => ("Invalid page or page size. Page must be greater than 0, and page size must be greater than 0 and less than 101"@, "ページまたはページサイズが指定されていません。また、ページは1以上、ページサイズは1 <= 100である必要があります"@),
        ErrorKey::UserAssignHandlerGetUserAssignsInvalidTarget => ("Invalid target. Target must be 'user' or 'task'"@, "ターゲットが指定されていません。ターゲットは'user'または'task'である必要があります"@),
        ErrorKey::UserAssignHandlerGetUserAssignsNoIdSpecified => ("ID is not specified"@, "IDが指定されていません"@),
        ErrorKey::UserAssignHandlerGetUserAssignsNoUserIdSpecified => ("User ID is not specified"@, "ユーザーIDが指定されていません"@),
        ErrorKey::UserAssignHandlerGetUserAssignsNoTaskIdSpecified => ("Task ID is not specified"@, "タスクIDが指定されていません"@),
        ErrorKey::UserAssignHandlerInvalidJsonPost => ("Invalid JSON in request body"@, "リクエストボディに無効なJSONが指定されています"@),
        ErrorKey::UserAssignHandlerPathAndBodyIdMismatch => ("Path and body ID mismatch"@, "パスとボディのIDが一致しません"@),
        ErrorKey::UserAssignHandlerInvalidQuery => ("Invalid query"@, "無効なクエリです"@),
        ErrorKey::UserAssignHandlerInvalidPath => ("Invalid path"@, "無効なパスです"@),
    ]
}

/// Adds the user assign handler messages to `map`, replacing any it held for the same keys.
pub fn add_user_assign_handler_error_messages(map: &mut MessageTable)
    ensures
        final(map)@ == old(map)@.union_prefer_right(user_assign_handler_error_messages()),
{
    map.insert(
        ErrorKey::UserAssignHandlerGetUserAssignsInvalidPage,
        "Invalid page or page size. Page must be greater than 0, and page size must be greater than 0 and less than 101",
        "ページまたはページサイズが指定されていません。また、ページは1以上、ページサイズは1 <= 100である必要があります",
    );
    map.insert(
        ErrorKey::UserAssignHandlerGetUserAssignsInvalidTarget,
        "Invalid target. Target must be 'user' or 'task'",
        "ターゲットが指定されていません。ターゲットは'user'または'task'である必要があります",
    );
    map.insert(
        ErrorKey::UserAssignHandlerGetUserAssignsNoIdSpecified,
        "ID is not specified",
        "IDが指定されていません",
    );
    map.insert(
        ErrorKey::UserAssignHandlerGetUserAssignsNoUserIdSpecified,
        "User ID is not specified",
        "ユーザーIDが指定されていません",
    );
    map.insert(
        ErrorKey::UserAssignHandlerGetUserAssignsNoTaskIdSpecified,
        "Task ID is not specified",
        "タスクIDが指定されていません",
    );
    map.insert(
        ErrorKey::UserAssignHandlerInvalidJsonPost,
        "Invalid JSON in request body",
        "リクエストボディに無効なJSONが指定されています",
    );
    map.insert(
        ErrorKey::UserAssignHandlerPathAndBodyIdMismatch,
        "Path and body ID mismatch",
        "パスとボディのIDが一致しません",
    );
    map.insert(
        ErrorKey::UserAssignHandlerInvalidQuery,
        "Invalid query",
        "無効なクエリです",
    );
    map.insert(
        ErrorKey::UserAssignHandlerInvalidPath,
        "Invalid path",
        "無効なパスです",
    );
    assert(map@ =~= old(map)@.union_prefer_right(user_assign_handler_error_messages()));
}

} // verus!
