use vstd::prelude::*;

use crate::errors::messages::{ErrorKey, MessageTable};

verus! {

/// The messages that `add_comment_error_messages` adds: for each key, its English and Japanese text.
pub open spec fn comment_error_messages() -> Map<ErrorKey, (Seq<char>, Seq<char>)> {
    map![
        ErrorKey::CommentIdInvalid => ("Comment ID must be greater than 0"@, "コメントIDは0より大きくなければなりません"@),
        ErrorKey::CommentIdMustBeNone => ("Comment ID must be none"@, "コメントIDはnullでなければなりません"@),
        ErrorKey::CommentCreateFailed => ("Failed to create comment due to database operation failure"@, "DB操作処理の問題によりコメントの作成に失敗しました"@),
        ErrorKey::CommentGetByIdFailed => ("Failed to get comment by ID due to database operation failure"@, "DB操作処理の問題によりIDによるコメントの取得に失敗しました"@),
        ErrorKey::CommentGetByTaskIdFailed => ("Failed to get comment by task ID due to database operation failure"@, "DB操作処理の問題によりタスクIDによるコメントの取得に失敗しました"@),
        ErrorKey::CommentGetByUserIdFailed => ("Failed to get comment by user ID due to database operation failure"@, "DB操作処理の問題によりユーザーIDによるコメントの取得に失敗しました"@),
        ErrorKey::CommentGetByUserIdAndTaskIdFailed => ("Failed to get comment by user ID and task ID due to database operation failure"@, "DB操作処理の問題によりユーザーIDとタスクIDによるコメントの取得に失敗しました"@),
        ErrorKey::CommentGetAllFailed => ("Failed to get all comments due to database operation failure"@, "DB操作処理の問題によりすべてのコメントの取得に失敗しました"@),
        ErrorKey::CommentUpdateFailed => ("Failed to update comment due to database operation failure"@, "DB操作処理の問題によりコメントの更新に失敗しました"@),
        ErrorKey::CommentDeleteFailed => ("Failed to delete comment due to database operation failure"@, "DB操作処理の問題によりコメントの削除に失敗しました"@),
        ErrorKey::CommentDeleteFailedByIdNotFound => ("Failed to delete comment becouse comment does not exist"@, "存在しないコメントを削除しようとしました。"@),
        ErrorKey::CommentUserIdInvalid => ("User ID must be greater than 0"@, "ユーザーIDは0より大きくなければなりません"@),
        ErrorKey::CommentTaskIdInvalid => ("Task ID must be greater than 0"@, "タスクIDは0より大きくなければなりません"@),
        ErrorKey::CommentIdNotFound => ("Comment not found"@, "コメントが見つかりません"@),
        ErrorKey::CommentUserIdNotFound => ("The user comment does not exist"@, "存在しないユーザーのコメントです"@),
        ErrorKey::CommentTaskIdNotFound => ("The task comment does not exist"@, "存在しないタスクのコメントです"@),
        ErrorKey::CommentContentEmpty => ("Comment content cannot be empty"@, "コメント内容は空にできません"@),
        ErrorKey::CommentContentTooLong => ("Comment content cannot be longer than 1024 characters"@, "コメント内容は2024文字以下である必要があります"@),
        ErrorKey::CommentToNotMaxLevelTask => ("The comment can only be added to the task at the maximum level"@, "コメントは最も詳細な階層のタスクにしか追加できません"@),
        ErrorKey::CommentGetByIdNotFound => ("Comment not found"@, "コメントが見つかりません"@),
        ErrorKey::CommentGetPaginationNotFound => ("No comments found in the specified page"@, "指定ページ内にコメントが存在しません。"@),
        ErrorKey::CommentGetCountFailed => ("Failed to get comments count due to database operation failure"@, "DB操作処理の問題によりコメントの数の取得に失敗しました"@),
    ]
}

/// Adds the comment messages to `map`, replacing any it held for the same keys.
pub fn add_comment_error_messages(map: &mut MessageTable)
    ensures
        final(map)@ == old(map)@.union_prefer_right(comment_error_messages()),
{
    map.insert(
        ErrorKey::CommentIdInvalid,
        "Comment ID must be greater than 0",
        "コメントIDは0より大きくなければなりません",
    );
    map.insert(
        ErrorKey::CommentIdMustBeNone,
        "Comment ID must be none",
        "コメントIDはnullでなければなりません",
    );
    map.insert(
        ErrorKey::CommentCreateFailed,
        "Failed to create comment due to database operation failure",
        "DB操作処理の問題によりコメントの作成に失敗しました",
    );
    map.insert(
        ErrorKey::CommentGetByIdFailed,
        "Failed to get comment by ID due to database operation failure",
        "DB操作処理の問題によりIDによるコメントの取得に失敗しました",
    );
    map.insert(
        ErrorKey::CommentGetByTaskIdFailed,
        "Failed to get comment by task ID due to database operation failure",
        "DB操作処理の問題によりタスクIDによるコメントの取得に失敗しました",
    );
    map.insert(
        ErrorKey::CommentGetByUserIdFailed,
        "Failed to get comment by user ID due to database operation failure",
        "DB操作処理の問題によりユーザーIDによるコメントの取得に失敗しました",
    );
    map.insert(
        ErrorKey::CommentGetByUserIdAndTaskIdFailed,
        "Failed to get comment by user ID and task ID due to database operation failure",
        "DB操作処理の問題によりユーザーIDとタスクIDによるコメントの取得に失敗しました",
    );
    map.insert(
        ErrorKey::CommentGetAllFailed,
        "Failed to get all comments due to database operation failure",
        "DB操作処理の問題によりすべてのコメントの取得に失敗しました",
    );
    map.insert(
        ErrorKey::CommentUpdateFailed,
        "Failed to update comment due to database operation failure",
        "DB操作処理の問題によりコメントの更新に失敗しました",
    );
    map.insert(
        ErrorKey::CommentDeleteFailed,
        "Failed to delete comment due to database operation failure",
        "DB操作処理の問題によりコメントの削除に失敗しました",
    );
    map.insert(
        ErrorKey::CommentDeleteFailedByIdNotFound,
        "Failed to delete comment becouse comment does not exist",
        "存在しないコメントを削除しようとしました。",
    );
    map.insert(
        ErrorKey::CommentUserIdInvalid,
        "User ID must be greater than 0",
        "ユーザーIDは0より大きくなければなりません",
    );
    map.insert(
        ErrorKey::CommentTaskIdInvalid,
        "Task ID must be greater than 0",
        "タスクIDは0より大きくなければなりません",
    );
    map.insert(
        ErrorKey::CommentIdNotFound,
        "Comment not found",
        "コメントが見つかりません",
    );
    map.insert(
        ErrorKey::CommentUserIdNotFound,
        "The user comment does not exist",
        "存在しないユーザーのコメントです",
    );
    map.insert(
        ErrorKey::CommentTaskIdNotFound,
        "The task comment does not exist",
        "存在しないタスクのコメントです",
    );
    map.insert(
        ErrorKey::CommentContentEmpty,
        "Comment content cannot be empty",
        "コメント内容は空にできません",
    );
    map.insert(
        ErrorKey::CommentContentTooLong,
        "Comment content cannot be longer than 1024 characters",
        "コメント内容は2024文字以下である必要があります",
    );
    map.insert(
        ErrorKey::CommentToNotMaxLevelTask,
        "The comment can only be added to the task at the maximum level",
        "コメントは最も詳細な階層のタスクにしか追加できません",
    );
    map.insert(
        ErrorKey::CommentGetByIdNotFound,
        "Comment not found",
        "コメントが見つかりません",
    );
    map.insert(
        ErrorKey::CommentGetPaginationNotFound,
        "No comments found in the specified page",
        "指定ページ内にコメントが存在しません。",
    );
    map.insert(
        ErrorKey::CommentGetCountFailed,
        "Failed to get comments count due to database operation failure",
        "DB操作処理の問題によりコメントの数の取得に失敗しました",
    );
    assert(map@ =~= old(map)@.union_prefer_right(comment_error_messages()));
}

} // verus!
