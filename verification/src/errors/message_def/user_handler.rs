use vstd::prelude::*;

use crate::errors::messages::{ErrorKey, MessageTable};

verus! {

/// The messages that `add_user_handler_error_messages` adds: for each key, its English and Japanese text.
pub open spec fn user_handler_error_messages() -> Map<ErrorKey, (Seq<char>, Seq<char>)> {
    map![
        ErrorKey::UserHandlerGetUsersInvalidPage => ("Invalid page or page size. Page must be greater than 0, and page size must be greater than 0 and less than 101"@, "ページまたはページサイズが指定されていません。また、ページは1以上、ページサイズは1 <= 100である必要があります"@),
        ErrorKey::UserGetByIdNotFound => ("User not found"@, "ユーザーが見つかりません"@),
        ErrorKey::UserGetByNameNotFound => ("User not found"@, "ユーザーが見つかりません"@),
        ErrorKey::UserHandlerGetUsersInvalidTarget => ("Invalid target. Target must be 'all', 'name', or 'id'"@, "ターゲットが無効です。ターゲットは'all'、'name'、または'id'である必要があります"@),
        ErrorKey::UserHandlerGetUsersNoNameSpecified => ("Name is not specified"@, "名前が指定されていません"@),
        ErrorKey::UserHandlerGetUsersNoIdSpecified => ("ID is not specified"@, "IDが指定されていません"@),
        ErrorKey::UserHandlerPathAndBodyIdMismatch => ("Path ID and body ID mismatch"@, "パスIDとボディIDが一致しません"@),
        ErrorKey::UserHandlerInvalidJsonPost => ("Invalid JSON format"@, "JSON形式が無効です"@),
    ]
}

/// Adds the user handler messages to `map`, replacing any it held for the same keys.
pub fn add_user_handler_error_messages(map: &mut MessageTable)
    ensures
        final(map)@ == old(map)@.union_prefer_right(user_handler_error_messages()),
{
    map.insert(
        ErrorKey::UserHandlerGetUsersInvalidPage,
        "Invalid page or page size. Page must be greater than 0, and page size must be greater than 0 and less than 101",
        "ページまたはページサイズが指定されていません。また、ページは1以上、ページサイズは1 <= 100である必要があります",
    );
    map.insert(
        ErrorKey::UserGetByIdNotFound,
        "User not found",
        "ユーザーが見つかりません",
    );
    map.insert(
        ErrorKey::UserGetByNameNotFound,
        "User not found",
        "ユーザーが見つかりません",
    );
    map.insert(
        ErrorKey::UserHandlerGetUsersInvalidTarget,
        "Invalid target. Target must be 'all', 'name', or 'id'",
        "ターゲットが無効です。ターゲットは'all'、'name'、または'id'である必要があります",
    );
    map.insert(
        ErrorKey::UserHandlerGetUsersNoNameSpecified,
        "Name is not specified",
        "名前が指定されていません",
    );
    map.insert(
        ErrorKey::UserHandlerGetUsersNoIdSpecified,
        "ID is not specified",
        "IDが指定されていません",
    );
    map.insert(
        ErrorKey::UserHandlerPathAndBodyIdMismatch,
        "Path ID and body ID mismatch",
        "パスIDとボディIDが一致しません",
    );
    map.insert(
        ErrorKey::UserHandlerInvalidJsonPost,
        "Invalid JSON format",
        "JSON形式が無効です",
    );
    assert(map@ =~= old(map)@.union_prefer_right(user_handler_error_messages()));
}

} // verus!
