use vstd::prelude::*;

use crate::errors::messages::ErrorKey;

verus! {

/// A short print of a key name that already tells the names of all keys
/// apart: its length, its first character, and its characters at two and
/// at twelve places from the end.
pub open spec fn name_print(s: Seq<char>) -> (nat, char, char, char) {
    (s.len(), s[0], s[s.len() - 2], s[s.len() - 12])
}

/// The key whose name has the print `p`, if any.
pub open spec fn key_of_print(p: (nat, char, char, char)) -> Option<ErrorKey> {
    if p == (13nat, 'U', 'i', 's') {
        Some(ErrorKey::UserIdInvalid)
    } else if p == (13nat, 'U', 't', 's') {
        Some(ErrorKey::UserNameEmpty)
    } else if p == (15nat, 'U', 'n', 'r') {
        Some(ErrorKey::UserNameTooLong)
    } else if p == (33nat, 'U', 'r', 'i') {
        Some(ErrorKey::UserNameContainsInvalidCharacters)
    } else if p == (14nat, 'U', 't', 'e') {
        Some(ErrorKey::UserEmailEmpty)
    } else if p == (16nat, 'U', 'n', 'E') {
        Some(ErrorKey::UserEmailTooLong)
    } else if p == (16nat, 'U', 'i', 'E') {
        Some(ErrorKey::UserEmailInvalid)
    } else if p == (17nat, 'U', 't', 'a') {
        Some(ErrorKey::UserPasswordEmpty)
    } else if p == (19nat, 'U', 'i', 's') {
        Some(ErrorKey::UserPasswordInvalid)
    } else if p == (16nat, 'U', 'e', 'C') {
        Some(ErrorKey::UserCreateFailed)
    } else if p == (17nat, 'U', 'e', 'e') {
        Some(ErrorKey::UserGetByIdFailed)
    } else if p == (19nat, 'U', 'e', 'B') {
        Some(ErrorKey::UserGetByNameFailed)
    } else if p == (16nat, 'U', 'e', 'G') {
        Some(ErrorKey::UserGetAllFailed)
    } else if p == (16nat, 'U', 'e', 'U') {
        Some(ErrorKey::UserUpdateFailed)
    } else if p == (16nat, 'U', 'e', 'D') {
        Some(ErrorKey::UserDeleteFailed)
    } else if p == (28nat, 'U', 'n', 'B') {
        Some(ErrorKey::UserDeleteFailedByIdNotFound)
    } else if p == (16nat, 'P', 'i', 'e') {
        Some(ErrorKey::ProjectIdInvalid)
    } else if p == (16nat, 'P', 't', 'e') {
        Some(ErrorKey::ProjectNameEmpty)
    } else if p == (18nat, 'P', 'n', 't') {
        Some(ErrorKey::ProjectNameTooLong)
    } else if p == (19nat, 'P', 'e', 'C') {
        Some(ErrorKey::ProjectCreateFailed)
    } else if p == (20nat, 'P', 'e', 'e') {
        Some(ErrorKey::ProjectGetByIdFailed)
    } else if p == (22nat, 'P', 'e', 'B') {
        Some(ErrorKey::ProjectGetByNameFailed)
    } else if p == (19nat, 'P', 'e', 'G') {
        Some(ErrorKey::ProjectGetAllFailed)
    } else if p == (19nat, 'P', 'e', 'U') {
        Some(ErrorKey::ProjectUpdateFailed)
    } else if p == (19nat, 'P', 'e', 'D') {
        Some(ErrorKey::ProjectDeleteFailed)
    } else if p == (31nat, 'P', 'n', 'B') {
        Some(ErrorKey::ProjectDeleteFailedByIdNotFound)
    } else if p == (13nat, 'T', 'i', 'a') {
        Some(ErrorKey::TaskIdInvalid)
    } else if p == (20nat, 'T', 'i', 'e') {
        Some(ErrorKey::TaskProjectIdInvalid)
    } else if p == (19nat, 'T', 'i', 'e') {
        Some(ErrorKey::TaskParentIdInvalid)
    } else if p == (16nat, 'T', 'i', 'L') {
        Some(ErrorKey::TaskLevelInvalid)
    } else if p == (17nat, 'T', 'i', 't') {
        Some(ErrorKey::TaskStatusInvalid)
    } else if p == (13nat, 'T', 't', 'a') {
        Some(ErrorKey::TaskNameEmpty)
    } else if p == (15nat, 'T', 'n', 'k') {
        Some(ErrorKey::TaskNameTooLong)
    } else if p == (22nat, 'T', 'n', 'p') {
        Some(ErrorKey::TaskDescriptionTooLong)
    } else if p == (20nat, 'T', 'i', 's') {
        Some(ErrorKey::TaskTimestampInvalid)
    } else if p == (26nat, 'T', 'i', 'r') {
        Some(ErrorKey::TaskTimestampOrNoneInvalid)
    } else if p == (21nat, 'T', 'n', 'c') {
        Some(ErrorKey::TaskProjectIdNotFound)
    } else if p == (28nat, 'T', 's', 'N') {
        Some(ErrorKey::TaskNoParentIdOnNonMajorTask)
    } else if p == (20nat, 'T', 'n', 'n') {
        Some(ErrorKey::TaskParentIdNotFound)
    } else if p == (22nat, 'T', 'i', 'L') {
        Some(ErrorKey::TaskParentLevelInvalid)
    } else if p == (32nat, 'T', 'I', 'S') {
        Some(ErrorKey::TaskParentIdCannotBeSameAsTaskId)
    } else if p == (16nat, 'T', 'e', 'C') {
        Some(ErrorKey::TaskCreateFailed)
    } else if p == (17nat, 'T', 'e', 'e') {
        Some(ErrorKey::TaskGetByIdFailed)
    } else if p == (16nat, 'T', 'e', 'G') {
        Some(ErrorKey::TaskGetAllFailed)
    } else if p == (21nat, 'T', 'e', 'F') {
        Some(ErrorKey::TaskGetByFilterFailed)
    } else if p == (16nat, 'T', 'e', 'U') {
        Some(ErrorKey::TaskUpdateFailed)
    } else if p == (16nat, 'T', 'e', 'D') {
        Some(ErrorKey::TaskDeleteFailed)
    } else if p == (28nat, 'T', 'n', 'B') {
        Some(ErrorKey::TaskDeleteFailedByIdNotFound)
    } else if p == (22nat, 'U', 'e', 'C') {
        Some(ErrorKey::UserAssignCreateFailed)
    } else if p == (23nat, 'U', 'e', 'e') {
        Some(ErrorKey::UserAssignGetByIdFailed)
    } else if p == (27nat, 'U', 'e', 'T') {
        Some(ErrorKey::UserAssignGetByTaskIdFailed)
    } else if p == (27nat, 'U', 'e', 'U') {
        Some(ErrorKey::UserAssignGetByUserIdFailed)
    } else if p == (36nat, 'U', 'e', 'T') {
        Some(ErrorKey::UserAssignGetByUserIdAndTaskIdFailed)
    } else if p == (22nat, 'U', 'e', 'G') {
        Some(ErrorKey::UserAssignGetAllFailed)
    } else if p == (22nat, 'U', 'e', 'U') {
        Some(ErrorKey::UserAssignUpdateFailed)
    } else if p == (22nat, 'U', 'e', 'D') {
        Some(ErrorKey::UserAssignDeleteFailed)
    } else if p == (34nat, 'U', 'n', 'B') {
        Some(ErrorKey::UserAssignDeleteFailedByIdNotFound)
    } else if p == (23nat, 'U', 'i', 's') {
        Some(ErrorKey::UserAssignUserIdInvalid)
    } else if p == (23nat, 'U', 'i', 'a') {
        Some(ErrorKey::UserAssignTaskIdInvalid)
    } else if p == (24nat, 'U', 'n', 'e') {
        Some(ErrorKey::UserAssignUserIdNotFound)
    } else if p == (24nat, 'U', 'n', 's') {
        Some(ErrorKey::UserAssignTaskIdNotFound)
    } else if p == (27nat, 'U', 's', 'M') {
        Some(ErrorKey::UserAssignToNotMaxLevelTask)
    } else if p == (30nat, 'U', 't', 'A') {
        Some(ErrorKey::UserAssignSameUserAssignExists)
    } else if p == (16nat, 'C', 'i', 'e') {
        Some(ErrorKey::CommentIdInvalid)
    } else if p == (19nat, 'C', 'n', 'I') {
        Some(ErrorKey::CommentIdMustBeNone)
    } else if p == (19nat, 'C', 'e', 'C') {
        Some(ErrorKey::CommentCreateFailed)
    } else if p == (20nat, 'C', 'e', 'e') {
        Some(ErrorKey::CommentGetByIdFailed)
    } else if p == (24nat, 'C', 'e', 'T') {
        Some(ErrorKey::CommentGetByTaskIdFailed)
    } else if p == (24nat, 'C', 'e', 'U') {
        Some(ErrorKey::CommentGetByUserIdFailed)
    } else if p == (33nat, 'C', 'e', 'T') {
        Some(ErrorKey::CommentGetByUserIdAndTaskIdFailed)
    } else if p == (19nat, 'C', 'e', 'G') {
        Some(ErrorKey::CommentGetAllFailed)
    } else if p == (19nat, 'C', 'e', 'U') {
        Some(ErrorKey::CommentUpdateFailed)
    } else if p == (19nat, 'C', 'e', 'D') {
        Some(ErrorKey::CommentDeleteFailed)
    } else if p == (31nat, 'C', 'n', 'B') {
        Some(ErrorKey::CommentDeleteFailedByIdNotFound)
    } else if p == (20nat, 'C', 'i', 's') {
        Some(ErrorKey::CommentUserIdInvalid)
    } else if p == (20nat, 'C', 'i', 'a') {
        Some(ErrorKey::CommentTaskIdInvalid)
    } else if p == (17nat, 'C', 'n', 'n') {
        Some(ErrorKey::CommentIdNotFound)
    } else if p == (21nat, 'C', 'n', 'e') {
        Some(ErrorKey::CommentUserIdNotFound)
    } else if p == (21nat, 'C', 'n', 's') {
        Some(ErrorKey::CommentTaskIdNotFound)
    } else if p == (19nat, 'C', 't', 'C') {
        Some(ErrorKey::CommentContentEmpty)
    } else if p == (21nat, 'C', 'n', 'n') {
        Some(ErrorKey::CommentContentTooLong)
    } else if p == (24nat, 'C', 's', 'M') {
        Some(ErrorKey::CommentToNotMaxLevelTask)
    } else if p == (22nat, 'C', 'n', 'B') {
        Some(ErrorKey::CommentGetByIdNotFound)
    } else if p == (28nat, 'C', 'n', 't') {
        Some(ErrorKey::CommentGetPaginationNotFound)
    } else if p == (21nat, 'C', 'e', 't') {
        Some(ErrorKey::CommentGetCountFailed)
    } else if p == (35nat, 'C', 'g', 't') {
        Some(ErrorKey::CommentHandlerGetCommentInvalidPage)
    } else if p == (37nat, 'C', 'e', 'n') {
        Some(ErrorKey::CommentHandlerGetCommentInvalidTarget)
    } else if p == (37nat, 'C', 'e', 'o') {
        Some(ErrorKey::CommentHandlerGetCommentNoIdSpecified)
    } else if p == (41nat, 'C', 'e', 'k') {
        Some(ErrorKey::CommentHandlerGetCommentNoTaskIdSpecified)
    } else if p == (41nat, 'C', 'e', 'r') {
        Some(ErrorKey::CommentHandlerGetCommentNoUserIdSpecified)
    } else if p == (29nat, 'C', 's', 'a') {
        Some(ErrorKey::CommentHandlerInvalidJsonPost)
    } else if p == (35nat, 'C', 'c', 'd') {
        Some(ErrorKey::CommentHandlerPathAndBodyIdMismatch)
    } else if p == (26nat, 'C', 'r', 'I') {
        Some(ErrorKey::CommentHandlerInvalidQuery)
    } else if p == (25nat, 'C', 't', 'r') {
        Some(ErrorKey::CommentHandlerInvalidPath)
    } else if p == (19nat, 'P', 'n', 'I') {
        Some(ErrorKey::ProjectIdMustBeNone)
    } else if p == (22nat, 'P', 'n', 'B') {
        Some(ErrorKey::ProjectGetByIdNotFound)
    } else if p == (24nat, 'P', 'n', 'N') {
        Some(ErrorKey::ProjectGetByNameNotFound)
    } else if p == (29nat, 'P', 'e', 's') {
        Some(ErrorKey::ProjectGetProjectsCountFailed)
    } else if p == (36nat, 'P', 'g', 's') {
        Some(ErrorKey::ProjectHandlerGetProjectsInvalidPage)
    } else if p == (38nat, 'P', 'e', 'n') {
        Some(ErrorKey::ProjectHandlerGetProjectsInvalidTarget)
    } else if p == (40nat, 'P', 'e', 'a') {
        Some(ErrorKey::ProjectHandlerGetProjectsNoNameSpecified)
    } else if p == (38nat, 'P', 'e', 'o') {
        Some(ErrorKey::ProjectHandlerGetProjectsNoIdSpecified)
    } else if p == (35nat, 'P', 'c', 'd') {
        Some(ErrorKey::ProjectHandlerPathAndBodyIdMismatch)
    } else if p == (29nat, 'P', 's', 'a') {
        Some(ErrorKey::ProjectHandlerInvalidJsonPost)
    } else if p == (26nat, 'P', 'r', 'I') {
        Some(ErrorKey::ProjectHandlerInvalidQuery)
    } else if p == (25nat, 'P', 't', 'r') {
        Some(ErrorKey::ProjectHandlerInvalidPath)
    } else if p == (15nat, 'N', 'e', 'a') {
        Some(ErrorKey::NoPageSpecified)
    } else if p == (19nat, 'N', 'e', 'i') {
        Some(ErrorKey::NoPageSizeSpecified)
    } else if p == (17nat, 'I', 'o', 'i') {
        Some(ErrorKey::InvalidPagination)
    } else if p == (16nat, 'P', 'g', 'S') {
        Some(ErrorKey::PageSizeTooLarge)
    } else if p == (23nat, 'N', 'o', 'I') {
        Some(ErrorKey::NoDataFoundInPagination)
    } else if p == (16nat, 'T', 'n', 'I') {
        Some(ErrorKey::TaskIdMustBeNone)
    } else if p == (18nat, 'T', 'e', 't') {
        Some(ErrorKey::TaskGetCountFailed)
    } else if p == (25nat, 'T', 'n', 't') {
        Some(ErrorKey::TaskGetPaginationNotFound)
    } else if p == (19nat, 'T', 'n', 'B') {
        Some(ErrorKey::TaskGetByIdNotFound)
    } else if p == (30nat, 'T', 'g', 's') {
        Some(ErrorKey::TaskHandlerGetTasksInvalidPage)
    } else if p == (32nat, 'T', 'e', 'n') {
        Some(ErrorKey::TaskHandlerGetTasksInvalidTarget)
    } else if p == (32nat, 'T', 'e', 'o') {
        Some(ErrorKey::TaskHandlerGetTasksNoIdSpecified)
    } else if p == (26nat, 'T', 's', 'a') {
        Some(ErrorKey::TaskHandlerInvalidJsonPost)
    } else if p == (32nat, 'T', 'c', 'd') {
        Some(ErrorKey::TaskHandlerPathAndBodyIdMismatch)
    } else if p == (20nat, 'T', 'e', 'G') {
        Some(ErrorKey::TaskUserGetAllFailed)
    } else if p == (25nat, 'T', 'e', 'F') {
        Some(ErrorKey::TaskUserGetByFilterFailed)
    } else if p == (29nat, 'T', 'n', 't') {
        Some(ErrorKey::TaskUserGetPaginationNotFound)
    } else if p == (16nat, 'U', 'n', 'I') {
        Some(ErrorKey::UserIdMustBeNone)
    } else if p == (23nat, 'U', 'e', 's') {
        Some(ErrorKey::UserGetUsersCountFailed)
    } else if p == (30nat, 'U', 'n', 't') {
        Some(ErrorKey::UserGetUsersPagenationNotFound)
    } else if p == (22nat, 'U', 'n', 'I') {
        Some(ErrorKey::UserAssignIdMustBeNone)
    } else if p == (25nat, 'U', 'n', 'B') {
        Some(ErrorKey::UserAssignGetByIdNotFound)
    } else if p == (31nat, 'U', 'n', 't') {
        Some(ErrorKey::UserAssignGetPaginationNotFound)
    } else if p == (38nat, 'U', 'n', 's') {
        Some(ErrorKey::UserAssignGetByUserIdAndTaskIdNotFound)
    } else if p == (35nat, 'U', 'e', 's') {
        Some(ErrorKey::UserAssignGetUserAssignsCountFailed)
    } else if p == (19nat, 'U', 'i', 'i') {
        Some(ErrorKey::UserAssignIdInvalid)
    } else if p == (42nat, 'U', 'g', 's') {
        Some(ErrorKey::UserAssignHandlerGetUserAssignsInvalidPage)
    } else if p == (44nat, 'U', 'e', 'n') {
        Some(ErrorKey::UserAssignHandlerGetUserAssignsInvalidTarget)
    } else if p == (44nat, 'U', 'e', 'o') {
        Some(ErrorKey::UserAssignHandlerGetUserAssignsNoIdSpecified)
    } else if p == (48nat, 'U', 'e', 'r') {
        Some(ErrorKey::UserAssignHandlerGetUserAssignsNoUserIdSpecified)
    } else if p == (48nat, 'U', 'e', 'k') {
        Some(ErrorKey::UserAssignHandlerGetUserAssignsNoTaskIdSpecified)
    } else if p == (32nat, 'U', 's', 'a') {
        Some(ErrorKey::UserAssignHandlerInvalidJsonPost)
    } else if p == (38nat, 'U', 'c', 'd') {
        Some(ErrorKey::UserAssignHandlerPathAndBodyIdMismatch)
    } else if p == (29nat, 'U', 'r', 'I') {
        Some(ErrorKey::UserAssignHandlerInvalidQuery)
    } else if p == (28nat, 'U', 't', 'r') {
        Some(ErrorKey::UserAssignHandlerInvalidPath)
    } else if p == (30nat, 'U', 'g', 's') {
        Some(ErrorKey::UserHandlerGetUsersInvalidPage)
    } else if p == (19nat, 'U', 'n', 'B') {
        Some(ErrorKey::UserGetByIdNotFound)
    } else if p == (21nat, 'U', 'n', 'N') {
        Some(ErrorKey::UserGetByNameNotFound)
    } else if p == (32nat, 'U', 'e', 'n') {
        Some(ErrorKey::UserHandlerGetUsersInvalidTarget)
    } else if p == (34nat, 'U', 'e', 'a') {
        Some(ErrorKey::UserHandlerGetUsersNoNameSpecified)
    } else if p == (32nat, 'U', 'e', 'o') {
        Some(ErrorKey::UserHandlerGetUsersNoIdSpecified)
    } else if p == (32nat, 'U', 'c', 'd') {
        Some(ErrorKey::UserHandlerPathAndBodyIdMismatch)
    } else if p == (26nat, 'U', 's', 'a') {
        Some(ErrorKey::UserHandlerInvalidJsonPost)
    } else if p == (22nat, 'T', 't', 'r') {
        Some(ErrorKey::TaskHandlerInvalidPath)
    } else if p == (23nat, 'T', 'r', 'I') {
        Some(ErrorKey::TaskHandlerInvalidQuery)
    } else if p == (22nat, 'U', 't', 'r') {
        Some(ErrorKey::UserHandlerInvalidPath)
    } else if p == (23nat, 'U', 'r', 'I') {
        Some(ErrorKey::UserHandlerInvalidQuery)
    } else {
        None
    }
}

/// The print of a key's name leads back to the key.
pub proof fn lemma_name_print_identifies(key: ErrorKey)
    ensures
        key_of_print(name_print(key.name())) == Some(key),
{
    match key {
        ErrorKey::UserIdInvalid => reveal_strlit("UserIdInvalid"),
        ErrorKey::UserNameEmpty => reveal_strlit("UserNameEmpty"),
        ErrorKey::UserNameTooLong => reveal_strlit("UserNameTooLong"),
        ErrorKey::UserNameContainsInvalidCharacters => reveal_strlit("UserNameContainsInvalidCharacters"),
        ErrorKey::UserEmailEmpty => reveal_strlit("UserEmailEmpty"),
        ErrorKey::UserEmailTooLong => reveal_strlit("UserEmailTooLong"),
        ErrorKey::UserEmailInvalid => reveal_strlit("UserEmailInvalid"),
        ErrorKey::UserPasswordEmpty => reveal_strlit("UserPasswordEmpty"),
        ErrorKey::UserPasswordInvalid => reveal_strlit("UserPasswordInvalid"),
        ErrorKey::UserCreateFailed => reveal_strlit("UserCreateFailed"),
        ErrorKey::UserGetByIdFailed => reveal_strlit("UserGetByIdFailed"),
        ErrorKey::UserGetByNameFailed => reveal_strlit("UserGetByNameFailed"),
        ErrorKey::UserGetAllFailed => reveal_strlit("UserGetAllFailed"),
        ErrorKey::UserUpdateFailed => reveal_strlit("UserUpdateFailed"),
        ErrorKey::UserDeleteFailed => reveal_strlit("UserDeleteFailed"),
        ErrorKey::UserDeleteFailedByIdNotFound => reveal_strlit("UserDeleteFailedByIdNotFound"),
        ErrorKey::ProjectIdInvalid => reveal_strlit("ProjectIdInvalid"),
        ErrorKey::ProjectNameEmpty => reveal_strlit("ProjectNameEmpty"),
        ErrorKey::ProjectNameTooLong => reveal_strlit("ProjectNameTooLong"),
        ErrorKey::ProjectCreateFailed => reveal_strlit("ProjectCreateFailed"),
        ErrorKey::ProjectGetByIdFailed => reveal_strlit("ProjectGetByIdFailed"),
        ErrorKey::ProjectGetByNameFailed => reveal_strlit("ProjectGetByNameFailed"),
        ErrorKey::ProjectGetAllFailed => reveal_strlit("ProjectGetAllFailed"),
        ErrorKey::ProjectUpdateFailed => reveal_strlit("ProjectUpdateFailed"),
        ErrorKey::ProjectDeleteFailed => reveal_strlit("ProjectDeleteFailed"),
        ErrorKey::ProjectDeleteFailedByIdNotFound => reveal_strlit("ProjectDeleteFailedByIdNotFound"),
        ErrorKey::TaskIdInvalid => reveal_strlit("TaskIdInvalid"),
        ErrorKey::TaskProjectIdInvalid => reveal_strlit("TaskProjectIdInvalid"),
        ErrorKey::TaskParentIdInvalid => reveal_strlit("TaskParentIdInvalid"),
        ErrorKey::TaskLevelInvalid => reveal_strlit("TaskLevelInvalid"),
        ErrorKey::TaskStatusInvalid => reveal_strlit("TaskStatusInvalid"),
        ErrorKey::TaskNameEmpty => reveal_strlit("TaskNameEmpty"),
        ErrorKey::TaskNameTooLong => reveal_strlit("TaskNameTooLong"),
        ErrorKey::TaskDescriptionTooLong => reveal_strlit("TaskDescriptionTooLong"),
        ErrorKey::TaskTimestampInvalid => reveal_strlit("TaskTimestampInvalid"),
        ErrorKey::TaskTimestampOrNoneInvalid => reveal_strlit("TaskTimestampOrNoneInvalid"),
        ErrorKey::TaskProjectIdNotFound => reveal_strlit("TaskProjectIdNotFound"),
        ErrorKey::TaskNoParentIdOnNonMajorTask => reveal_strlit("TaskNoParentIdOnNonMajorTask"),
        ErrorKey::TaskParentIdNotFound => reveal_strlit("TaskParentIdNotFound"),
        ErrorKey::TaskParentLevelInvalid => reveal_strlit("TaskParentLevelInvalid"),
        ErrorKey::TaskParentIdCannotBeSameAsTaskId => reveal_strlit("TaskParentIdCannotBeSameAsTaskId"),
        ErrorKey::TaskCreateFailed => reveal_strlit("TaskCreateFailed"),
        ErrorKey::TaskGetByIdFailed => reveal_strlit("TaskGetByIdFailed"),
        ErrorKey::TaskGetAllFailed => reveal_strlit("TaskGetAllFailed"),
        ErrorKey::TaskGetByFilterFailed => reveal_strlit("TaskGetByFilterFailed"),
        ErrorKey::TaskUpdateFailed => reveal_strlit("TaskUpdateFailed"),
        ErrorKey::TaskDeleteFailed => reveal_strlit("TaskDeleteFailed"),
        ErrorKey::TaskDeleteFailedByIdNotFound => reveal_strlit("TaskDeleteFailedByIdNotFound"),
        ErrorKey::UserAssignCreateFailed => reveal_strlit("UserAssignCreateFailed"),
        ErrorKey::UserAssignGetByIdFailed => reveal_strlit("UserAssignGetByIdFailed"),
        ErrorKey::UserAssignGetByTaskIdFailed => reveal_strlit("UserAssignGetByTaskIdFailed"),
        ErrorKey::UserAssignGetByUserIdFailed => reveal_strlit("UserAssignGetByUserIdFailed"),
        ErrorKey::UserAssignGetByUserIdAndTaskIdFailed => reveal_strlit("UserAssignGetByUserIdAndTaskIdFailed"),
        ErrorKey::UserAssignGetAllFailed => reveal_strlit("UserAssignGetAllFailed"),
        ErrorKey::UserAssignUpdateFailed => reveal_strlit("UserAssignUpdateFailed"),
        ErrorKey::UserAssignDeleteFailed => reveal_strlit("UserAssignDeleteFailed"),
        ErrorKey::UserAssignDeleteFailedByIdNotFound => reveal_strlit("UserAssignDeleteFailedByIdNotFound"),
        ErrorKey::UserAssignUserIdInvalid => reveal_strlit("UserAssignUserIdInvalid"),
        ErrorKey::UserAssignTaskIdInvalid => reveal_strlit("UserAssignTaskIdInvalid"),
        ErrorKey::UserAssignUserIdNotFound => reveal_strlit("UserAssignUserIdNotFound"),
        ErrorKey::UserAssignTaskIdNotFound => reveal_strlit("UserAssignTaskIdNotFound"),
        ErrorKey::UserAssignToNotMaxLevelTask => reveal_strlit("UserAssignToNotMaxLevelTask"),
        ErrorKey::UserAssignSameUserAssignExists => reveal_strlit("UserAssignSameUserAssignExists"),
        ErrorKey::CommentIdInvalid => reveal_strlit("CommentIdInvalid"),
        ErrorKey::CommentIdMustBeNone => reveal_strlit("CommentIdMustBeNone"),
        ErrorKey::CommentCreateFailed => reveal_strlit("CommentCreateFailed"),
        ErrorKey::CommentGetByIdFailed => reveal_strlit("CommentGetByIdFailed"),
        ErrorKey::CommentGetByTaskIdFailed => reveal_strlit("CommentGetByTaskIdFailed"),
        ErrorKey::CommentGetByUserIdFailed => reveal_strlit("CommentGetByUserIdFailed"),
        ErrorKey::CommentGetByUserIdAndTaskIdFailed => reveal_strlit("CommentGetByUserIdAndTaskIdFailed"),
        ErrorKey::CommentGetAllFailed => reveal_strlit("CommentGetAllFailed"),
        ErrorKey::CommentUpdateFailed => reveal_strlit("CommentUpdateFailed"),
        ErrorKey::CommentDeleteFailed => reveal_strlit("CommentDeleteFailed"),
        ErrorKey::CommentDeleteFailedByIdNotFound => reveal_strlit("CommentDeleteFailedByIdNotFound"),
        ErrorKey::CommentUserIdInvalid => reveal_strlit("CommentUserIdInvalid"),
        ErrorKey::CommentTaskIdInvalid => reveal_strlit("CommentTaskIdInvalid"),
        ErrorKey::CommentIdNotFound => reveal_strlit("CommentIdNotFound"),
        ErrorKey::CommentUserIdNotFound => reveal_strlit("CommentUserIdNotFound"),
        ErrorKey::CommentTaskIdNotFound => reveal_strlit("CommentTaskIdNotFound"),
        ErrorKey::CommentContentEmpty => reveal_strlit("CommentContentEmpty"),
        ErrorKey::CommentContentTooLong => reveal_strlit("CommentContentTooLong"),
        ErrorKey::CommentToNotMaxLevelTask => reveal_strlit("CommentToNotMaxLevelTask"),
        ErrorKey::CommentGetByIdNotFound => reveal_strlit("CommentGetByIdNotFound"),
        ErrorKey::CommentGetPaginationNotFound => reveal_strlit("CommentGetPaginationNotFound"),
        ErrorKey::CommentGetCountFailed => reveal_strlit("CommentGetCountFailed"),
        ErrorKey::CommentHandlerGetCommentInvalidPage => reveal_strlit("CommentHandlerGetCommentInvalidPage"),
        ErrorKey::CommentHandlerGetCommentInvalidTarget => reveal_strlit("CommentHandlerGetCommentInvalidTarget"),
        ErrorKey::CommentHandlerGetCommentNoIdSpecified => reveal_strlit("CommentHandlerGetCommentNoIdSpecified"),
        ErrorKey::CommentHandlerGetCommentNoTaskIdSpecified => reveal_strlit("CommentHandlerGetCommentNoTaskIdSpecified"),
        ErrorKey::CommentHandlerGetCommentNoUserIdSpecified => reveal_strlit("CommentHandlerGetCommentNoUserIdSpecified"),
        ErrorKey::CommentHandlerInvalidJsonPost => reveal_strlit("CommentHandlerInvalidJsonPost"),
        ErrorKey::CommentHandlerPathAndBodyIdMismatch => reveal_strlit("CommentHandlerPathAndBodyIdMismatch"),
        ErrorKey::CommentHandlerInvalidQuery => reveal_strlit("CommentHandlerInvalidQuery"),
        ErrorKey::CommentHandlerInvalidPath => reveal_strlit("CommentHandlerInvalidPath"),
        ErrorKey::ProjectIdMustBeNone => reveal_strlit("ProjectIdMustBeNone"),
        ErrorKey::ProjectGetByIdNotFound => reveal_strlit("ProjectGetByIdNotFound"),
        ErrorKey::ProjectGetByNameNotFound => reveal_strlit("ProjectGetByNameNotFound"),
        ErrorKey::ProjectGetProjectsCountFailed => reveal_strlit("ProjectGetProjectsCountFailed"),
        ErrorKey::ProjectHandlerGetProjectsInvalidPage => reveal_strlit("ProjectHandlerGetProjectsInvalidPage"),
        ErrorKey::ProjectHandlerGetProjectsInvalidTarget => reveal_strlit("ProjectHandlerGetProjectsInvalidTarget"),
        ErrorKey::ProjectHandlerGetProjectsNoNameSpecified => reveal_strlit("ProjectHandlerGetProjectsNoNameSpecified"),
        ErrorKey::ProjectHandlerGetProjectsNoIdSpecified => reveal_strlit("ProjectHandlerGetProjectsNoIdSpecified"),
        ErrorKey::ProjectHandlerPathAndBodyIdMismatch => reveal_strlit("ProjectHandlerPathAndBodyIdMismatch"),
        ErrorKey::ProjectHandlerInvalidJsonPost => reveal_strlit("ProjectHandlerInvalidJsonPost"),
        ErrorKey::ProjectHandlerInvalidQuery => reveal_strlit("ProjectHandlerInvalidQuery"),
        ErrorKey::ProjectHandlerInvalidPath => reveal_strlit("ProjectHandlerInvalidPath"),
        ErrorKey::NoPageSpecified => reveal_strlit("NoPageSpecified"),
        ErrorKey::NoPageSizeSpecified => reveal_strlit("NoPageSizeSpecified"),
        ErrorKey::InvalidPagination => reveal_strlit("InvalidPagination"),
        ErrorKey::PageSizeTooLarge => reveal_strlit("PageSizeTooLarge"),
        ErrorKey::NoDataFoundInPagination => reveal_strlit("NoDataFoundInPagination"),
        ErrorKey::TaskIdMustBeNone => reveal_strlit("TaskIdMustBeNone"),
        ErrorKey::TaskGetCountFailed => reveal_strlit("TaskGetCountFailed"),
        ErrorKey::TaskGetPaginationNotFound => reveal_strlit("TaskGetPaginationNotFound"),
        ErrorKey::TaskGetByIdNotFound => reveal_strlit("TaskGetByIdNotFound"),
        ErrorKey::TaskHandlerGetTasksInvalidPage => reveal_strlit("TaskHandlerGetTasksInvalidPage"),
        ErrorKey::TaskHandlerGetTasksInvalidTarget => reveal_strlit("TaskHandlerGetTasksInvalidTarget"),
        ErrorKey::TaskHandlerGetTasksNoIdSpecified => reveal_strlit("TaskHandlerGetTasksNoIdSpecified"),
        ErrorKey::TaskHandlerInvalidJsonPost => reveal_strlit("TaskHandlerInvalidJsonPost"),
        ErrorKey::TaskHandlerPathAndBodyIdMismatch => reveal_strlit("TaskHandlerPathAndBodyIdMismatch"),
        ErrorKey::TaskUserGetAllFailed => reveal_strlit("TaskUserGetAllFailed"),
        ErrorKey::TaskUserGetByFilterFailed => reveal_strlit("TaskUserGetByFilterFailed"),
        ErrorKey::TaskUserGetPaginationNotFound => reveal_strlit("TaskUserGetPaginationNotFound"),
        ErrorKey::UserIdMustBeNone => reveal_strlit("UserIdMustBeNone"),
        ErrorKey::UserGetUsersCountFailed => reveal_strlit("UserGetUsersCountFailed"),
        ErrorKey::UserGetUsersPagenationNotFound => reveal_strlit("UserGetUsersPagenationNotFound"),
        ErrorKey::UserAssignIdMustBeNone => reveal_strlit("UserAssignIdMustBeNone"),
        ErrorKey::UserAssignGetByIdNotFound => reveal_strlit("UserAssignGetByIdNotFound"),
        ErrorKey::UserAssignGetPaginationNotFound => reveal_strlit("UserAssignGetPaginationNotFound"),
        ErrorKey::UserAssignGetByUserIdAndTaskIdNotFound => reveal_strlit("UserAssignGetByUserIdAndTaskIdNotFound"),
        ErrorKey::UserAssignGetUserAssignsCountFailed => reveal_strlit("UserAssignGetUserAssignsCountFailed"),
        ErrorKey::UserAssignIdInvalid => reveal_strlit("UserAssignIdInvalid"),
        ErrorKey::UserAssignHandlerGetUserAssignsInvalidPage => reveal_strlit("UserAssignHandlerGetUserAssignsInvalidPage"),
        ErrorKey::UserAssignHandlerGetUserAssignsInvalidTarget => reveal_strlit("UserAssignHandlerGetUserAssignsInvalidTarget"),
        ErrorKey::UserAssignHandlerGetUserAssignsNoIdSpecified => reveal_strlit("UserAssignHandlerGetUserAssignsNoIdSpecified"),
        ErrorKey::UserAssignHandlerGetUserAssignsNoUserIdSpecified => reveal_strlit("UserAssignHandlerGetUserAssignsNoUserIdSpecified"),
        ErrorKey::UserAssignHandlerGetUserAssignsNoTaskIdSpecified => reveal_strlit("UserAssignHandlerGetUserAssignsNoTaskIdSpecified"),
        ErrorKey::UserAssignHandlerInvalidJsonPost => reveal_strlit("UserAssignHandlerInvalidJsonPost"),
        ErrorKey::UserAssignHandlerPathAndBodyIdMismatch => reveal_strlit("UserAssignHandlerPathAndBodyIdMismatch"),
        ErrorKey::UserAssignHandlerInvalidQuery => reveal_strlit("UserAssignHandlerInvalidQuery"),
        ErrorKey::UserAssignHandlerInvalidPath => reveal_strlit("UserAssignHandlerInvalidPath"),
        ErrorKey::UserHandlerGetUsersInvalidPage => reveal_strlit("UserHandlerGetUsersInvalidPage"),
        ErrorKey::UserGetByIdNotFound => reveal_strlit("UserGetByIdNotFound"),
        ErrorKey::UserGetByNameNotFound => reveal_strlit("UserGetByNameNotFound"),
        ErrorKey::UserHandlerGetUsersInvalidTarget => reveal_strlit("UserHandlerGetUsersInvalidTarget"),
        ErrorKey::UserHandlerGetUsersNoNameSpecified => reveal_strlit("UserHandlerGetUsersNoNameSpecified"),
        ErrorKey::UserHandlerGetUsersNoIdSpecified => reveal_strlit("UserHandlerGetUsersNoIdSpecified"),
        ErrorKey::UserHandlerPathAndBodyIdMismatch => reveal_strlit("UserHandlerPathAndBodyIdMismatch"),
        ErrorKey::UserHandlerInvalidJsonPost => reveal_strlit("UserHandlerInvalidJsonPost"),
        ErrorKey::TaskHandlerInvalidPath => reveal_strlit("TaskHandlerInvalidPath"),
        ErrorKey::TaskHandlerInvalidQuery => reveal_strlit("TaskHandlerInvalidQuery"),
        ErrorKey::UserHandlerInvalidPath => reveal_strlit("UserHandlerInvalidPath"),
        ErrorKey::UserHandlerInvalidQuery => reveal_strlit("UserHandlerInvalidQuery"),
    }
}

/// Two different keys have different names, so a key's name, and the text
/// that `to_string` gives, identify the key.
pub proof fn lemma_name_injective(key: ErrorKey, other: ErrorKey)
    ensures
        key.name() == other.name() ==> key == other,
{
    lemma_name_print_identifies(key);
    lemma_name_print_identifies(other);
}

} // verus!
