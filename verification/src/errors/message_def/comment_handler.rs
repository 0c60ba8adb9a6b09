use vstd::prelude::*;

use crate::errors::messages::{ErrorKey, MessageTable};

verus! {

/// The messages that `add_comment_handler_error_messages` adds: for each key, its English and Japanese text.
pub open spec fn comment_handler_error_messages() -> Map<ErrorKey, (Seq<char>, Seq<char>)> {
    map![
        ErrorKey::CommentHandlerGetCommentInvalidPage => ("Invalid page or page size. Page must be greater than 0, and page size must be greater than 0 and less than 101"@, "ページまたはページサイズが指定されていません。また、ページは1以上、ページサイズは1 <= 100である必要があります"@),
        ErrorKey::CommentHandlerGetCommentInvalidTarget => ("Invalid target. Target must be 'all', 'id', 'task_id', or 'user_id'"@, "ターゲットが指定されていません。ターゲットは'all', 'id', 'task_id', または'user_id'である必要があります"@),
        ErrorKey::CommentHandlerGetCommentNoIdSpecified => ("ID is not specified"@, "IDが指定されていません"@),
        ErrorKey::CommentHandlerGetCommentNoTaskIdSpecified => ("Task ID is not specified"@, "タスクIDが指定されていません"@),
        ErrorKey::CommentHandlerGetCommentNoUserIdSpecified => ("User ID is not specified"@, "ユーザーIDが指定されていません"@),
        ErrorKey::CommentHandlerInvalidJsonPost => ("Invalid JSON post. JSON must be a valid comment object"@, "無効なJSONポストです。JSONは有効なコメントオブジェクトである必要があります"@),
        ErrorKey::CommentHandlerPathAndBodyIdMismatch => ("Path and body ID mismatch"@, "パスとボディのIDが一致しません"@),
        ErrorKey::CommentHandlerInvalidQuery => ("Invalid query. Query must be a valid comment object"@, "無効なクエリです。クエリは有効なコメントオブジェクトである必要があります"@),
        ErrorKey::CommentHandlerInvalidPath => ("Invalid path. Path must be a valid comment object"@, "無効なパスです。パスは有効なコメントオブジェクトである必要があります"@),
    ]
}

/// Adds the comment handler messages to `map`, replacing any it held for the same keys.
pub fn add_comment_handler_error_messages(map: &mut MessageTable)
    ensures
        final(map)@ == old(map)@.union_prefer_right(comment_handler_error_messages()),
{
    map.insert(
        ErrorKey::CommentHandlerGetCommentInvalidPage,
        "Invalid page or page size. Page must be greater than 0, and page size must be greater than 0 and less than 101",
        "ページまたはページサイズが指定されていません。また、ページは1以上、ページサイズは1 <= 100である必要があります",
    );
    map.insert(
        ErrorKey::CommentHandlerGetCommentInvalidTarget,
        "Invalid target. Target must be 'all', 'id', 'task_id', or 'user_id'",
        "ターゲットが指定されていません。ターゲットは'all', 'id', 'task_id', または'user_id'である必要があります",
    );
    map.insert(
        ErrorKey::CommentHandlerGetCommentNoIdSpecified,
        "ID is not specified",
        "IDが指定されていません",
    );
    map.insert(
        ErrorKey::CommentHandlerGetCommentNoTaskIdSpecified,
        "Task ID is not specified",
        "タスクIDが指定されていません",
    );
    map.insert(
        ErrorKey::CommentHandlerGetCommentNoUserIdSpecified,
        "User ID is not specified",
        "ユーザーIDが指定されていません",
    );
    map.insert(
        ErrorKey::CommentHandlerInvalidJsonPost,
        "Invalid JSON post. JSON must be a valid comment object",
        "無効なJSONポストです。JSONは有効なコメントオブジェクトである必要があります",
    );
    map.insert(
        ErrorKey::CommentHandlerPathAndBodyIdMismatch,
        "Path and body ID mismatch",
        "パスとボディのIDが一致しません",
    );
    map.insert(
        ErrorKey::CommentHandlerInvalidQuery,
        "Invalid query. Query must be a valid comment object",
        "無効なクエリです。クエリは有効なコメントオブジェクトである必要があります",
    );
    map.insert(
        ErrorKey::CommentHandlerInvalidPath,
        "Invalid path. Path must be a valid comment object",
        "無効なパスです。パスは有効なコメントオブジェクトである必要があります",
    );
    assert(map@ =~= old(map)@.union_prefer_right(comment_handler_error_messages()));
}

} // verus!
