use vstd::prelude::*;

use crate::errors::messages::{ErrorKey, MessageTable};

verus! {

/// The messages that `add_user_error_messages` adds: for each key, its English and Japanese text.
pub open spec fn user_error_messages() -> Map<ErrorKey, (Seq<char>, Seq<char>)> {
    map![
        ErrorKey::UserIdInvalid => ("User ID must be greater than 0"@, "ユーザーIDは0より大きくなければなりません"@),
        ErrorKey::UserIdMustBeNone => ("User ID must be None. ID was specified in a process that cannot specify ID."@, "ユーザーIDが指定できない処理でIDが指定されました。"@),
        ErrorKey::UserNameEmpty => ("Username cannot be empty"@, "ユーザー名は空にできません"@),
        ErrorKey::UserNameTooLong => ("Username cannot be longer than 128 characters"@, "ユーザー名は128文字以下である必要があります"@),
        ErrorKey::UserNameContainsInvalidCharacters => ("Username can only contain alphanumeric characters, dots, and underscores"@, "ユーザー名には英数字、ドット、アンダースコアのみ使用できます"@),
        ErrorKey::UserEmailEmpty => ("Email cannot be empty"@, "メールアドレスは空にできません"@),
        ErrorKey::UserEmailTooLong => ("Email cannot be longer than 254 characters"@, "メールアドレスは254文字以下である必要があります"@),
        ErrorKey::UserEmailInvalid => ("Invalid email address"@, "無効なメールアドレスです"@),
        ErrorKey::UserPasswordEmpty => ("Password cannot be empty"@, "パスワードは空にできません"@),
        ErrorKey::UserPasswordInvalid => ("Password must be a valid SHA-256 hash (lowercase hexadecimal)"@, "パスワードは有効なSHA-256ハッシュ（小文字の16進数）である必要があります"@),
        ErrorKey::UserCreateFailed => ("Failed to create user due to database operation failure"@, "DB操作処理の問題によりユーザーの作成に失敗しました"@),
        ErrorKey::UserGetByIdFailed => ("Failed to get user by ID due to database operation failure"@, "DB操作処理の問題によりIDによるユーザーの取得に失敗しました"@),
        ErrorKey::UserGetByNameFailed => ("Failed to get user by name due to database operation failure"@, "DB操作処理の問題により名前によるユーザーの取得に失敗しました"@),
        ErrorKey::UserGetAllFailed => ("Failed to get all users due to database operation failure"@, "DB操作処理の問題によりすべてのユーザーの取得に失敗しました"@),
        ErrorKey::UserUpdateFailed => ("Failed to update user due to database operation failure"@, "DB操作処理の問題によりユーザーの更新に失敗しました"@),
        ErrorKey::UserDeleteFailed => ("Failed to delete user due to database operation failure"@, "DB操作処理の問題によりユーザーの削除に失敗しました"@),
        ErrorKey::UserDeleteFailedByIdNotFound => ("Failed to delete user becouse user does not exist"@, "存在しないユーザーを削除しようとしました。"@),
        ErrorKey::UserGetUsersCountFailed => ("Failed to get users count due to database operation failure"@, "DB操作処理の問題によりユーザーの数の取得に失敗しました"@),
        ErrorKey::UserGetUsersPagenationNotFound => ("No users found on the specified page"@, "指定されたページにユーザーが存在しません"@),
    ]
}

/// Adds the user messages to `map`, replacing any it held for the same keys.
pub fn add_user_error_messages(map: &mut MessageTable)
    ensures
        final(map)@ == old(map)@.union_prefer_right(user_error_messages()),
{
    map.insert(
        ErrorKey::UserIdInvalid,
        "User ID must be greater than 0",
        "ユーザーIDは0より大きくなければなりません",
    );
    map.insert(
        ErrorKey::UserIdMustBeNone,
        "User ID must be None. ID was specified in a process that cannot specify ID.",
        "ユーザーIDが指定できない処理でIDが指定されました。",
    );
    map.insert(
        ErrorKey::UserNameEmpty,
        "Username cannot be empty",
        "ユーザー名は空にできません",
    );
    map.insert(
        ErrorKey::UserNameTooLong,
        "Username cannot be longer than 128 characters",
        "ユーザー名は128文字以下である必要があります",
    );
    map.insert(
        ErrorKey::UserNameContainsInvalidCharacters,
        "Username can only contain alphanumeric characters, dots, and underscores",
        "ユーザー名には英数字、ドット、アンダースコアのみ使用できます",
    );
    map.insert(
        ErrorKey::UserEmailEmpty,
        "Email cannot be empty",
        "メールアドレスは空にできません",
    );
    map.insert(
        ErrorKey::UserEmailTooLong,
        "Email cannot be longer than 254 characters",
        "メールアドレスは254文字以下である必要があります",
    );
    map.insert(
        ErrorKey::UserEmailInvalid,
        "Invalid email address",
        "無効なメールアドレスです",
    );
    map.insert(
        ErrorKey::UserPasswordEmpty,
        "Password cannot be empty",
        "パスワードは空にできません",
    );
    map.insert(
        ErrorKey::UserPasswordInvalid,
        "Password must be a valid SHA-256 hash (lowercase hexadecimal)",
        "パスワードは有効なSHA-256ハッシュ（小文字の16進数）である必要があります",
    );
    map.insert(
        ErrorKey::UserCreateFailed,
        "Failed to create user due to database operation failure",
        "DB操作処理の問題によりユーザーの作成に失敗しました",
    );
    map.insert(
        ErrorKey::UserGetByIdFailed,
        "Failed to get user by ID due to database operation failure",
        "DB操作処理の問題によりIDによるユーザーの取得に失敗しました",
    );
    map.insert(
        ErrorKey::UserGetByNameFailed,
        "Failed to get user by name due to database operation failure",
        "DB操作処理の問題により名前によるユーザーの取得に失敗しました",
    );
    map.insert(
        ErrorKey::UserGetAllFailed,
        "Failed to get all users due to database operation failure",
        "DB操作処理の問題によりすべてのユーザーの取得に失敗しました",
    );
    map.insert(
        ErrorKey::UserUpdateFailed,
        "Failed to update user due to database operation failure",
        "DB操作処理の問題によりユーザーの更新に失敗しました",
    );
    map.insert(
        ErrorKey::UserDeleteFailed,
        "Failed to delete user due to database operation failure",
        "DB操作処理の問題によりユーザーの削除に失敗しました",
    );
    map.insert(
        ErrorKey::UserDeleteFailedByIdNotFound,
        "Failed to delete user becouse user does not exist",
        "存在しないユーザーを削除しようとしました。",
    );
    map.insert(
        ErrorKey::UserGetUsersCountFailed,
        "Failed to get users count due to database operation failure",
        "DB操作処理の問題によりユーザーの数の取得に失敗しました",
    );
    map.insert(
        ErrorKey::UserGetUsersPagenationNotFound,
        "No users found on the specified page",
        "指定されたページにユーザーが存在しません",
    );
    assert(map@ =~= old(map)@.union_prefer_right(user_error_messages()));
}

} // verus!
