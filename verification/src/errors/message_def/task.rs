use vstd::prelude::*;

use crate::errors::messages::{ErrorKey, MessageTable};

verus! {

/// The messages that `add_task_error_messages` adds: for each key, its English and Japanese text.
pub open spec fn task_error_messages() -> Map<ErrorKey, (Seq<char>, Seq<char>)> {
    map![
        ErrorKey::TaskIdInvalid => ("Task ID must be greater than 0"@, "タスクIDは0より大きくなければなりません"@),
        ErrorKey::TaskIdMustBeNone => ("Task ID must be none"@, "タスクIDはnullでなければなりません"@),
        ErrorKey::TaskProjectIdInvalid => ("Project ID must be greater than 0"@, "プロジェクトIDは0より大きくなければなりません"@),
        ErrorKey::TaskParentIdInvalid => ("Parent ID must be greater than 0"@, "親タスクIDは0より大きくなければなりません"@),
        ErrorKey::TaskLevelInvalid => ("Invalid task level"@, "無効なタスクレベルです"@),
        ErrorKey::TaskStatusInvalid => ("Invalid task status"@, "無効なタスクステータスです"@),
        ErrorKey::TaskNameEmpty => ("Task name cannot be empty"@, "タスク名は空にできません"@),
        ErrorKey::TaskNameTooLong => ("Task name cannot be longer than 128 characters"@, "タスク名は128文字以下である必要があります"@),
        ErrorKey::TaskDescriptionTooLong => ("Task description cannot be longer than 1024 characters"@, "タスクの説明は1024文字以下である必要があります"@),
        ErrorKey::TaskTimestampInvalid => ("Timestamp must be greater than 0"@, "タイムスタンプは0より大きくなければなりません"@),
        ErrorKey::TaskTimestampOrNoneInvalid => ("Timestamp must be greater than 0 or None"@, "タイムスタンプは0より大きいか、Noneである必要があります"@),
        ErrorKey::TaskProjectIdNotFound => ("Project not found."@, "プロジェクトが見つかりません"@),
        ErrorKey::TaskNoParentIdOnNonMajorTask => ("Parent ID is required for non-major tasks"@, "大項目タスク以外のタスクには親タスクIDが必要です"@),
        ErrorKey::TaskParentIdNotFound => ("Parent task not found"@, "親タスクが見つかりません"@),
        ErrorKey::TaskParentLevelInvalid => ("Parent task level is not one level higher"@, "親タスクのレベルが1つ上ではありません"@),
        ErrorKey::TaskParentIdCannotBeSameAsTaskId => ("Parent ID cannot be the same as the task ID"@, "親タスクIDはタスクIDと同じにできません"@),
        ErrorKey::TaskCreateFailed => ("Failed to create task due to database operation failure"@, "DB操作処理の問題によりタスクの作成に失敗しました"@),
        ErrorKey::TaskGetByIdFailed => ("Failed to get task by ID due to database operation failure"@, "DB操作処理の問題によりIDによるタスクの取得に失敗しました"@),
        ErrorKey::TaskGetAllFailed => ("Failed to get all tasks due to database operation failure"@, "DB操作処理の問題によりすべてのタスクの取得に失敗しました"@),
        ErrorKey::TaskGetByFilterFailed => ("Failed to get tasks by filter due to database operation failure"@, "DB操作処理の問題によりフィルターによるタスクの取得に失敗しました"@),
        ErrorKey::TaskUpdateFailed => ("Failed to update task due to database operation failure"@, "DB操作処理の問題によりタスクの更新に失敗しました"@),
        ErrorKey::TaskDeleteFailed => ("Failed to delete task due to database operation failure"@, "DB操作処理の問題によりタスクの削除に失敗しました"@),
        ErrorKey::TaskDeleteFailedByIdNotFound => ("Failed to delete task becouse task does not exist"@, "存在しないタスクを削除しようとしました。"@),
        ErrorKey::TaskGetCountFailed => ("Failed to get count of tasks due to database operation failure"@, "DB操作処理の問題によりタスクの件数の取得に失敗しました"@),
        ErrorKey::TaskGetPaginationNotFound => ("No tasks found in the specified page"@, "指定ページ内にタスクが存在しません。"@),
        ErrorKey::TaskGetByIdNotFound => ("Task not found"@, "タスクが見つかりません"@),
    ]
}

/// Adds the task messages to `map`, replacing any it held for the same keys.
pub fn add_task_error_messages(map: &mut MessageTable)
    ensures
        final(map)@ == old(map)@.union_prefer_right(task_error_messages()),
{
    map.insert(
        ErrorKey::TaskIdInvalid,
        "Task ID must be greater than 0",
        "タスクIDは0より大きくなければなりません",
    );
    map.insert(
        ErrorKey::TaskIdMustBeNone,
        "Task ID must be none",
        "タスクIDはnullでなければなりません",
    );
    map.insert(
        ErrorKey::TaskProjectIdInvalid,
        "Project ID must be greater than 0",
        "プロジェクトIDは0より大きくなければなりません",
    );
    map.insert(
        ErrorKey::TaskParentIdInvalid,
        "Parent ID must be greater than 0",
        "親タスクIDは0より大きくなければなりません",
    );
    map.insert(
        ErrorKey::TaskLevelInvalid,
        "Invalid task level",
        "無効なタスクレベルです",
    );
    map.insert(
        ErrorKey::TaskStatusInvalid,
        "Invalid task status",
        "無効なタスクステータスです",
    );
    map.insert(
        ErrorKey::TaskNameEmpty,
        "Task name cannot be empty",
        "タスク名は空にできません",
    );
    map.insert(
        ErrorKey::TaskNameTooLong,
        "Task name cannot be longer than 128 characters",
        "タスク名は128文字以下である必要があります",
    );
    map.insert(
        ErrorKey::TaskDescriptionTooLong,
        "Task description cannot be longer than 1024 characters",
        "タスクの説明は1024文字以下である必要があります",
    );
    map.insert(
        ErrorKey::TaskTimestampInvalid,
        "Timestamp must be greater than 0",
        "タイムスタンプは0より大きくなければなりません",
    );
    map.insert(
        ErrorKey::TaskTimestampOrNoneInvalid,
        "Timestamp must be greater than 0 or None",
        "タイムスタンプは0より大きいか、Noneである必要があります",
    );
    map.insert(
        ErrorKey::TaskProjectIdNotFound,
        "Project not found.",
        "プロジェクトが見つかりません",
    );
    map.insert(
        ErrorKey::TaskNoParentIdOnNonMajorTask,
        "Parent ID is required for non-major tasks",
        "大項目タスク以外のタスクには親タスクIDが必要です",
    );
    map.insert(
        ErrorKey::TaskParentIdNotFound,
        "Parent task not found",
        "親タスクが見つかりません",
    );
    map.insert(
        ErrorKey::TaskParentLevelInvalid,
        "Parent task level is not one level higher",
        "親タスクのレベルが1つ上ではありません",
    );
    map.insert(
        ErrorKey::TaskParentIdCannotBeSameAsTaskId,
        "Parent ID cannot be the same as the task ID",
        "親タスクIDはタスクIDと同じにできません",
    );
    map.insert(
        ErrorKey::TaskCreateFailed,
        "Failed to create task due to database operation failure",
        "DB操作処理の問題によりタスクの作成に失敗しました",
    );
    map.insert(
        ErrorKey::TaskGetByIdFailed,
        "Failed to get task by ID due to database operation failure",
        "DB操作処理の問題によりIDによるタスクの取得に失敗しました",
    );
    map.insert(
        ErrorKey::TaskGetAllFailed,
        "Failed to get all tasks due to database operation failure",
        "DB操作処理の問題によりすべてのタスクの取得に失敗しました",
    );
    map.insert(
        ErrorKey::TaskGetByFilterFailed,
        "Failed to get tasks by filter due to database operation failure",
        "DB操作処理の問題によりフィルターによるタスクの取得に失敗しました",
    );
    map.insert(
        ErrorKey::TaskUpdateFailed,
        "Failed to update task due to database operation failure",
        "DB操作処理の問題によりタスクの更新に失敗しました",
    );
    map.insert(
        ErrorKey::TaskDeleteFailed,
        "Failed to delete task due to database operation failure",
        "DB操作処理の問題によりタスクの削除に失敗しました",
    );
    map.insert(
        ErrorKey::TaskDeleteFailedByIdNotFound,
        "Failed to delete task becouse task does not exist",
        "存在しないタスクを削除しようとしました。",
    );
    map.insert(
        ErrorKey::TaskGetCountFailed,
        "Failed to get count of tasks due to database operation failure",
        "DB操作処理の問題によりタスクの件数の取得に失敗しました",
    );
    map.insert(
        ErrorKey::TaskGetPaginationNotFound,
        "No tasks found in the specified page",
        "指定ページ内にタスクが存在しません。",
    );
    map.insert(
        ErrorKey::TaskGetByIdNotFound,
        "Task not found",
        "タスクが見つかりません",
    );
    assert(map@ =~= old(map)@.union_prefer_right(task_error_messages()));
}

} // verus!
