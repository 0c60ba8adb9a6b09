use vstd::prelude::*;

use crate::errors::messages::{ErrorKey, MessageTable};

verus! {

/// The messages that `add_repository_error_messages` adds: for each key, its English and Japanese text.
pub open spec fn repository_error_messages() -> Map<ErrorKey, (Seq<char>, Seq<char>)> {
    map![
        ErrorKey::NoPageSpecified => ("No page specified"@, "ページが指定されていません"@),
        ErrorKey::NoPageSizeSpecified => ("No page size specified"@, "ページサイズが指定されていません"@),
        ErrorKey::InvalidPagination => ("Invalid pagination"@, "無効なページング"@),
        ErrorKey::PageSizeTooLarge => ("Page size too large"@, "ページサイズが大きすぎます"@),
        ErrorKey::NoDataFoundInPagination => ("No data found in pagination"@, "ページングにデータが見つかりません"@),
    ]
}

/// Adds the repository messages to `map`, replacing any it held for the same keys.
pub fn add_repository_error_messages(map: &mut MessageTable)
    ensures
        final(map)@ == old(map)@.union_prefer_right(repository_error_messages()),
{
    map.insert(
        ErrorKey::NoPageSpecified,
        "No page specified",
        "ページが指定されていません",
    );
    map.insert(
        ErrorKey::NoPageSizeSpecified,
        "No page size specified",
        "ページサイズが指定されていません",
    );
    map.insert(
        ErrorKey::InvalidPagination,
        "Invalid pagination",
        "無効なページング",
    );
    map.insert(
        ErrorKey::PageSizeTooLarge,
        "Page size too large",
        "ページサイズが大きすぎます",
    );
    map.insert(
        ErrorKey::NoDataFoundInPagination,
        "No data found in pagination",
        "ページングにデータが見つかりません",
    );
    assert(map@ =~= old(map)@.union_prefer_right(repository_error_messages()));
}

} // verus!
