use vstd::prelude::*;

use crate::errors::messages::{ErrorKey, MessageTable};

verus! {

/// The messages that `add_task_user_error_messages` adds: for each key, its English and Japanese text.
pub open spec fn task_user_error_messages() -> Map<ErrorKey, (Seq<char>, Seq<char>)> {
    map![
        ErrorKey::TaskUserGetAllFailed => ("Failed to get all tasks and users due to database operation failure"@, "DB操作処理の問題により全てのタスクとユーザーの取得に失敗しました"@),
        ErrorKey::TaskUserGetByFilterFailed => ("Failed to get tasks and users by filter due to database operation failure"@, "DB操作処理の問題によりフィルターに基づいてタスクとユーザーを取得に失敗しました"@),
        ErrorKey::TaskUserGetPaginationNotFound => ("No tasks and users found on the specified page"@, "指定ページにタスクとユーザーが存在しません"@),
    ]
}

/// Adds the task user messages to `map`, replacing any it held for the same keys.
pub fn add_task_user_error_messages(map: &mut MessageTable)
    ensures
        final(map)@ == old(map)@.union_prefer_right(task_user_error_messages()),
{
    map.insert(
        ErrorKey::TaskUserGetAllFailed,
        "Failed to get all tasks and users due to database operation failure",
        "DB操作処理の問題により全てのタスクとユーザーの取得に失敗しました",
    );
    map.insert(
        ErrorKey::TaskUserGetByFilterFailed,
        "Failed to get tasks and users by filter due to database operation failure",
        "DB操作処理の問題によりフィルターに基づいてタスクとユーザーを取得に失敗しました",
    );
    map.insert(
        ErrorKey::TaskUserGetPaginationNotFound,
        "No tasks and users found on the specified page",
        "指定ページにタスクとユーザーが存在しません",
    );
    assert(map@ =~= old(map)@.union_prefer_right(task_user_error_messages()));
}

} // verus!
