use vstd::prelude::*;

use crate::errors::messages::{ErrorKey, MessageTable};

verus! {

/// The messages that `add_task_handler_error_messages` adds: for each key, its English and Japanese text.
pub open spec fn task_handler_error_messages() -> Map<ErrorKey, (Seq<char>, Seq<char>)> {
    map![
        ErrorKey::TaskHandlerGetTasksInvalidPage => ("Invalid page or page size. Page must be greater than 0, and page size must be less than 100."@, "ページまたはページサイズが指定されていません。また、ページは1以上、ページサイズは100以下である必要があります。"@),
        ErrorKey::TaskHandlerGetTasksInvalidTarget => ("Invalid target. Target must be 'all' or 'id'."@, "ターゲットが無効です。ターゲットは'all'または'id'である必要があります"@),
        ErrorKey::TaskHandlerGetTasksNoIdSpecified => ("No id specified"@, "IDが指定されていません"@),
        ErrorKey::TaskHandlerInvalidJsonPost => ("Invalid JSON format in request body"@, "リクエストボディのJSON形式が無効です"@),
        ErrorKey::TaskHandlerPathAndBodyIdMismatch => ("Path ID and body ID mismatch"@, "パスIDとボディIDが一致しません"@),
    ]
}

/// Adds the task handler messages to `map`, replacing any it held for the same keys.
pub fn add_task_handler_error_messages(map: &mut MessageTable)
    ensures
        final(map)@ == old(map)@.union_prefer_right(task_handler_error_messages()),
{
    map.insert(
        ErrorKey::TaskHandlerGetTasksInvalidPage,
        "Invalid page or page size. Page must be greater than 0, and page size must be less than 100.",
        "ページまたはページサイズが指定されていません。また、ページは1以上、ページサイズは100以下である必要があります。",
    );
    map.insert(
        ErrorKey::TaskHandlerGetTasksInvalidTarget,
        "Invalid target. Target must be 'all' or 'id'.",
        "ターゲットが無効です。ターゲットは'all'または'id'である必要があります",
    );
    map.insert(
        ErrorKey::TaskHandlerGetTasksNoIdSpecified,
        "No id specified",
        "IDが指定されていません",
    );
    map.insert(
        ErrorKey::TaskHandlerInvalidJsonPost,
        "Invalid JSON format in request body",
        "リクエストボディのJSON形式が無効です",
    );
    map.insert(
        ErrorKey::TaskHandlerPathAndBodyIdMismatch,
        "Path ID and body ID mismatch",
        "パスIDとボディIDが一致しません",
    );
    assert(map@ =~= old(map)@.union_prefer_right(task_handler_error_messages()));
}

} // verus!
