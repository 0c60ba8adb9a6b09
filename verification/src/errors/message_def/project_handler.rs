use vstd::prelude::*;

use crate::errors::messages::{ErrorKey, MessageTable};

verus! {

/// The messages that `add_project_handler_error_messages` adds: for each key, its English and Japanese text.
pub open spec fn project_handler_error_messages() -> Map<ErrorKey, (Seq<char>, Seq<char>)> {
    map![
        ErrorKey::ProjectHandlerGetProjectsInvalidPage => ("Invalid page or page size. Page must be greater than 0, and page size must be less than 100."@, "ページまたはページサイズが指定されていません。また、ページは1以上、ページサイズは100以下である必要があります。"@),
        ErrorKey::ProjectHandlerGetProjectsInvalidTarget => ("Invalid target. Target must be 'all', 'name', or 'id'"@, "ターゲットが無効です。ターゲットは'all'、'name'、または'id'である必要があります"@),
        ErrorKey::ProjectHandlerGetProjectsNoNameSpecified => ("No name specified"@, "名前が指定されていません"@),
        ErrorKey::ProjectHandlerGetProjectsNoIdSpecified => ("No id specified"@, "IDが指定されていません"@),
        ErrorKey::ProjectHandlerPathAndBodyIdMismatch => ("Path and body id mismatch"@, "パスとボディのIDが一致しません"@),
        ErrorKey::ProjectHandlerInvalidJsonPost => ("Invalid JSON format"@, "JSON形式が無効です"@),
        ErrorKey::ProjectHandlerInvalidQuery => ("Invalid query"@, "クエリが無効です"@),
        ErrorKey::ProjectHandlerInvalidPath => ("Invalid path"@, "パスが無効です"@),
    ]
}

/// Adds the project handler messages to `map`, replacing any it held for the same keys.
pub fn add_project_handler_error_messages(map: &mut MessageTable)
    ensures
        final(map)@ == old(map)@.union_prefer_right(project_handler_error_messages()),
{
    map.insert(
        ErrorKey::ProjectHandlerGetProjectsInvalidPage,
        "Invalid page or page size. Page must be greater than 0, and page size must be less than 100.",
        "ページまたはページサイズが指定されていません。また、ページは1以上、ページサイズは100以下である必要があります。",
    );
    map.insert(
        ErrorKey::ProjectHandlerGetProjectsInvalidTarget,
        "Invalid target. Target must be 'all', 'name', or 'id'",
        "ターゲットが無効です。ターゲットは'all'、'name'、または'id'である必要があります",
    );
    map.insert(
        ErrorKey::ProjectHandlerGetProjectsNoNameSpecified,
        "No name specified",
        "名前が指定されていません",
    );
    map.insert(
        ErrorKey::ProjectHandlerGetProjectsNoIdSpecified,
        "No id specified",
        "IDが指定されていません",
    );
    map.insert(
        ErrorKey::ProjectHandlerPathAndBodyIdMismatch,
        "Path and body id mismatch",
        "パスとボディのIDが一致しません",
    );
    map.insert(
        ErrorKey::ProjectHandlerInvalidJsonPost,
        "Invalid JSON format",
        "JSON形式が無効です",
    );
    map.insert(
        ErrorKey::ProjectHandlerInvalidQuery,
        "Invalid query",
        "クエリが無効です",
    );
    map.insert(
        ErrorKey::ProjectHandlerInvalidPath,
        "Invalid path",
        "パスが無効です",
    );
    assert(map@ =~= old(map)@.union_prefer_right(project_handler_error_messages()));
}

} // verus!
