use vstd::prelude::*;

use crate::errors::messages::{ErrorKey, MessageTable};

verus! {

/// The messages that `add_user_assign_error_messages` adds: for each key, its English and Japanese text.
pub open spec fn user_assign_error_messages() -> Map<ErrorKey, (Seq<char>, Seq<char>)> {
    map![
        ErrorKey::UserAssignCreateFailed => ("Failed to create user assign due to database operation failure"@, "DB操作処理の問題によりユーザー割り当ての作成に失敗しました"@),
        ErrorKey::UserAssignIdMustBeNone => ("User assign ID must be none"@, "ユーザー割り当てIDはnullでなければなりません"@),
        ErrorKey::UserAssignGetByIdFailed => ("Failed to get user assign by ID due to database operation failure"@, "DB操作処理の問題によりIDによるユーザー割り当ての取得に失敗しました"@),
        ErrorKey::UserAssignGetByTaskIdFailed => ("Failed to get user assign by task ID due to database operation failure"@, "DB操作処理の問題によりタスクIDによるユーザー割り当ての取得に失敗しました"@),
        ErrorKey::UserAssignGetByUserIdFailed => ("Failed to get user assign by user ID due to database operation failure"@, "DB操作処理の問題によりユーザーIDによるユーザー割り当ての取得に失敗しました"@),
        ErrorKey::UserAssignGetByUserIdAndTaskIdFailed => ("Failed to get user assign by user ID and task ID due to database operation failure"@, "DB操作処理の問題によりユーザーIDとタスクIDによるユーザー割り当ての取得に失敗しました"@),
        ErrorKey::UserAssignGetAllFailed => ("Failed to get all user assigns due to database operation failure"@, "DB操作処理の問題によりすべてのユーザー割り当ての取得に失敗しました"@),
        ErrorKey::UserAssignUpdateFailed => ("Failed to update user assign due to database operation failure"@, "DB操作処理の問題によりユーザー割り当ての更新に失敗しました"@),
        ErrorKey::UserAssignDeleteFailed => ("Failed to delete user assign due to database operation failure"@, "DB操作処理の問題によりユーザー割り当ての削除に失敗しました"@),
        ErrorKey::UserAssignDeleteFailedByIdNotFound => ("Failed to delete user assign becouse user assign does not exist"@, "存在しないユーザー割り当てを削除しようとしました。"@),
        ErrorKey::UserAssignUserIdInvalid => ("User ID must be greater than 0"@, "ユーザーIDは0より大きくなければなりません"@),
        ErrorKey::UserAssignTaskIdInvalid => ("Task ID must be greater than 0"@, "タスクIDは0より大きくなければなりません"@),
        ErrorKey::UserAssignUserIdNotFound => ("The user assign to task does not exist"@, "存在しないユーザーをタスクに割り当てしようとしました。"@),
        ErrorKey::UserAssignTaskIdNotFound => ("The task assign to user does not exist"@, "存在しないタスクをユーザーに割り当てしようとしました。"@),
        ErrorKey::UserAssignToNotMaxLevelTask => ("The user can only be assigned to tasks at the maximum level"@, "ユーザーは最も詳細な階層のタスクにしか割り当てられません"@),
        ErrorKey::UserAssignSameUserAssignExists => ("The user is already assigned to the task"@, "すでにユーザーはタスクに割り当てられています"@),
        ErrorKey::UserAssignGetByIdNotFound => ("User assign not found"@, "ユーザー割り当てが見つかりません"@),
        ErrorKey::UserAssignGetPaginationNotFound => ("No user assigns found in the specified page"@, "指定ページ内にユーザー割り当てが存在しません。"@),
        ErrorKey::UserAssignGetByUserIdAndTaskIdNotFound => ("User assign not found"@, "ユーザー割り当てが見つかりません"@),
        ErrorKey::UserAssignGetUserAssignsCountFailed => ("Failed to get user assigns count due to database operation failure"@, "DB操作処理の問題によりユーザー割り当ての数の取得に失敗しました"@),
        ErrorKey::UserAssignIdInvalid => ("User assign ID must be greater than 0"@, "ユーザー割り当てIDは0より大きくなければなりません"@),
    ]
}

/// Adds the user assign messages to `map`, replacing any it held for the same keys.
pub fn add_user_assign_error_messages(map: &mut MessageTable)
    ensures
        final(map)@ == old(map)@.union_prefer_right(user_assign_error_messages()),
{
    map.insert(
        ErrorKey::UserAssignCreateFailed,
        "Failed to create user assign due to database operation failure",
        "DB操作処理の問題によりユーザー割り当ての作成に失敗しました",
    );
    map.insert(
        ErrorKey::UserAssignIdMustBeNone,
        "User assign ID must be none",
        "ユーザー割り当てIDはnullでなければなりません",
    );
    map.insert(
        ErrorKey::UserAssignGetByIdFailed,
        "Failed to get user assign by ID due to database operation failure",
        "DB操作処理の問題によりIDによるユーザー割り当ての取得に失敗しました",
    );
    map.insert(
        ErrorKey::UserAssignGetByTaskIdFailed,
        "Failed to get user assign by task ID due to database operation failure",
        "DB操作処理の問題によりタスクIDによるユーザー割り当ての取得に失敗しました",
    );
    map.insert(
        ErrorKey::UserAssignGetByUserIdFailed,
        "Failed to get user assign by user ID due to database operation failure",
        "DB操作処理の問題によりユーザーIDによるユーザー割り当ての取得に失敗しました",
    );
    map.insert(
        ErrorKey::UserAssignGetByUserIdAndTaskIdFailed,
        "Failed to get user assign by user ID and task ID due to database operation failure",
        "DB操作処理の問題によりユーザーIDとタスクIDによるユーザー割り当ての取得に失敗しました",
    );
    map.insert(
        ErrorKey::UserAssignGetAllFailed,
        "Failed to get all user assigns due to database operation failure",
        "DB操作処理の問題によりすべてのユーザー割り当ての取得に失敗しました",
    );
    map.insert(
        ErrorKey::UserAssignUpdateFailed,
        "Failed to update user assign due to database operation failure",
        "DB操作処理の問題によりユーザー割り当ての更新に失敗しました",
    );
    map.insert(
        ErrorKey::UserAssignDeleteFailed,
        "Failed to delete user assign due to database operation failure",
        "DB操作処理の問題によりユーザー割り当ての削除に失敗しました",
    );
    map.insert(
        ErrorKey::UserAssignDeleteFailedByIdNotFound,
        "Failed to delete user assign becouse user assign does not exist",
        "存在しないユーザー割り当てを削除しようとしました。",
    );
    map.insert(
        ErrorKey::UserAssignUserIdInvalid,
        "User ID must be greater than 0",
        "ユーザーIDは0より大きくなければなりません",
    );
    map.insert(
        ErrorKey::UserAssignTaskIdInvalid,
        "Task ID must be greater than 0",
        "タスクIDは0より大きくなければなりません",
    );
    map.insert(
        ErrorKey::UserAssignUserIdNotFound,
        "The user assign to task does not exist",
        "存在しないユーザーをタスクに割り当てしようとしました。",
    );
    map.insert(
        ErrorKey::UserAssignTaskIdNotFound,
        "The task assign to user does not exist",
        "存在しないタスクをユーザーに割り当てしようとしました。",
    );
    map.insert(
        ErrorKey::UserAssignToNotMaxLevelTask,
        "The user can only be assigned to tasks at the maximum level",
        "ユーザーは最も詳細な階層のタスクにしか割り当てられません",
    );
    map.insert(
        ErrorKey::UserAssignSameUserAssignExists,
        "The user is already assigned to the task",
        "すでにユーザーはタスクに割り当てられています",
    );
    map.insert(
        ErrorKey::UserAssignGetByIdNotFound,
        "User assign not found",
        "ユーザー割り当てが見つかりません",
    );
    map.insert(
        ErrorKey::UserAssignGetPaginationNotFound,
        "No user assigns found in the specified page",
        "指定ページ内にユーザー割り当てが存在しません。",
    );
    map.insert(
        ErrorKey::UserAssignGetByUserIdAndTaskIdNotFound,
        "User assign not found",
        "ユーザー割り当てが見つかりません",
    );
    map.insert(
        ErrorKey::UserAssignGetUserAssignsCountFailed,
        "Failed to get user assigns count due to database operation failure",
        "DB操作処理の問題によりユーザー割り当ての数の取得に失敗しました",
    );
    map.insert(
        ErrorKey::UserAssignIdInvalid,
        "User assign ID must be greater than 0",
        "ユーザー割り当てIDは0より大きくなければなりません",
    );
    assert(map@ =~= old(map)@.union_prefer_right(user_assign_error_messages()));
}

} // verus!
