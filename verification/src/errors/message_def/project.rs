use vstd::prelude::*;

use crate::errors::messages::{ErrorKey, MessageTable};

verus! {

/// The messages that `add_project_error_messages` adds: for each key, its English and Japanese text.
pub open spec fn project_error_messages() -> Map<ErrorKey, (Seq<char>, Seq<char>)> {
    map![
        ErrorKey::ProjectIdInvalid => ("Project ID must be greater than 0"@, "プロジェクトIDは0より大きくなければなりません"@),
        ErrorKey::ProjectNameEmpty => ("Project name cannot be empty"@, "プロジェクト名は空にできません"@),
        ErrorKey::ProjectNameTooLong => ("Project name cannot be longer than 128 characters"@, "プロジェクト名は128文字以下である必要があります"@),
        ErrorKey::ProjectIdMustBeNone => ("ID was specified in a process that does not allow ID to be specified."@, "プロジェクトIDを指定できない処理でIDが指定されました。"@),
        ErrorKey::ProjectGetByIdNotFound => ("Project ID not found"@, "プロジェクトIDが見つかりません"@),
        ErrorKey::ProjectGetByNameNotFound => ("Project name not found"@, "プロジェクト名が見つかりません"@),
        ErrorKey::ProjectCreateFailed => ("Failed to create project due to database operation failure"@, "DB操作処理の問題によりプロジェクトの作成に失敗しました"@),
        ErrorKey::ProjectGetByIdFailed => ("Failed to get project by ID due to database operation failure"@, "DB操作処理の問題によりIDによるプロジェクトの取得に失敗しました"@),
        ErrorKey::ProjectGetByNameFailed => ("Failed to get project by name due to database operation failure"@, "DB操作処理の問題により名前によるプロジェクトの取得に失敗しました"@),
        ErrorKey::ProjectGetAllFailed => ("Failed to get all projects due to database operation failure"@, "DB操作処理の問題によりすべてのプロジェクトの取得に失敗しました"@),
        ErrorKey::ProjectUpdateFailed => ("Failed to update project due to database operation failure"@, "DB操作処理の問題によりプロジェクトの更新に失敗しました"@),
        ErrorKey::ProjectDeleteFailed => ("Failed to delete project due to database operation failure"@, "DB操作処理の問題によりプロジェクトの削除に失敗しました"@),
        ErrorKey::ProjectDeleteFailedByIdNotFound => ("Failed to delete project becouse project does not exist"@, "存在しないプロジェクトを削除しようとしました。"@),
        ErrorKey::ProjectGetProjectsCountFailed => ("Failed to get projects count due to database operation failure"@, "DB操作処理の問題によりプロジェクトの数の取得に失敗しました"@),
    ]
}

/// Adds the project messages to `map`, replacing any it held for the same keys.
pub fn add_project_error_messages(map: &mut MessageTable)
    ensures
        final(map)@ == old(map)@.union_prefer_right(project_error_messages()),
{
    map.insert(
        ErrorKey::ProjectIdInvalid,
        "Project ID must be greater than 0",
        "プロジェクトIDは0より大きくなければなりません",
    );
    map.insert(
        ErrorKey::ProjectNameEmpty,
        "Project name cannot be empty",
        "プロジェクト名は空にできません",
    );
    map.insert(
        ErrorKey::ProjectNameTooLong,
        "Project name cannot be longer than 128 characters",
        "プロジェクト名は128文字以下である必要があります",
    );
    map.insert(
        ErrorKey::ProjectIdMustBeNone,
        "ID was specified in a process that does not allow ID to be specified.",
        "プロジェクトIDを指定できない処理でIDが指定されました。",
    );
    map.insert(
        ErrorKey::ProjectGetByIdNotFound,
        "Project ID not found",
        "プロジェクトIDが見つかりません",
    );
    map.insert(
        ErrorKey::ProjectGetByNameNotFound,
        "Project name not found",
        "プロジェクト名が見つかりません",
    );
    map.insert(
        ErrorKey::ProjectCreateFailed,
        "Failed to create project due to database operation failure",
        "DB操作処理の問題によりプロジェクトの作成に失敗しました",
    );
    map.insert(
        ErrorKey::ProjectGetByIdFailed,
        "Failed to get project by ID due to database operation failure",
        "DB操作処理の問題によりIDによるプロジェクトの取得に失敗しました",
    );
    map.insert(
        ErrorKey::ProjectGetByNameFailed,
        "Failed to get project by name due to database operation failure",
        "DB操作処理の問題により名前によるプロジェクトの取得に失敗しました",
    );
    map.insert(
        ErrorKey::ProjectGetAllFailed,
        "Failed to get all projects due to database operation failure",
        "DB操作処理の問題によりすべてのプロジェクトの取得に失敗しました",
    );
    map.insert(
        ErrorKey::ProjectUpdateFailed,
        "Failed to update project due to database operation failure",
        "DB操作処理の問題によりプロジェクトの更新に失敗しました",
    );
    map.insert(
        ErrorKey::ProjectDeleteFailed,
        "Failed to delete project due to database operation failure",
        "DB操作処理の問題によりプロジェクトの削除に失敗しました",
    );
    map.insert(
        ErrorKey::ProjectDeleteFailedByIdNotFound,
        "Failed to delete project becouse project does not exist",
        "存在しないプロジェクトを削除しようとしました。",
    );
    map.insert(
        ErrorKey::ProjectGetProjectsCountFailed,
        "Failed to get projects count due to database operation failure",
        "DB操作処理の問題によりプロジェクトの数の取得に失敗しました",
    );
    assert(map@ =~= old(map)@.union_prefer_right(project_error_messages()));
}

} // verus!
