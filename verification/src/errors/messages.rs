use vstd::prelude::*;
use std::collections::HashMap;

use crate::errors::message_def::{
    add_comment_error_messages, add_comment_handler_error_messages, add_project_error_messages,
    add_project_handler_error_messages, add_repository_error_messages, add_task_error_messages,
    add_task_handler_error_messages, add_task_user_error_messages, add_user_error_messages,
    add_user_assign_error_messages, add_user_assign_handler_error_messages,
    add_user_handler_error_messages, comment_error_messages, comment_handler_error_messages,
    project_error_messages, project_handler_error_messages, repository_error_messages,
    task_error_messages, task_handler_error_messages, task_user_error_messages,
    user_error_messages, user_assign_error_messages, user_assign_handler_error_messages,
    user_handler_error_messages,
};
use crate::text::str_eq;

verus! {

broadcast use vstd::std_specs::hash::group_hash_axioms;

/// Identifies one error condition of the service; each has a message in
/// several languages.
#[derive(Debug, Clone, Copy, PartialEq, Eq, Hash, Structural)]
pub enum ErrorKey {
    UserIdInvalid,
    UserNameEmpty,
    UserNameTooLong,
    UserNameContainsInvalidCharacters,
    UserEmailEmpty,
    UserEmailTooLong,
    UserEmailInvalid,
    UserPasswordEmpty,
    UserPasswordInvalid,
    UserCreateFailed,
    UserGetByIdFailed,
    UserGetByNameFailed,
    UserGetAllFailed,
    UserUpdateFailed,
    UserDeleteFailed,
    UserDeleteFailedByIdNotFound,
    ProjectIdInvalid,
    ProjectNameEmpty,
    ProjectNameTooLong,
    ProjectCreateFailed,
    ProjectGetByIdFailed,
    ProjectGetByNameFailed,
    ProjectGetAllFailed,
    ProjectUpdateFailed,
    ProjectDeleteFailed,
    ProjectDeleteFailedByIdNotFound,
    TaskIdInvalid,
    TaskProjectIdInvalid,
    TaskParentIdInvalid,
    TaskLevelInvalid,
    TaskStatusInvalid,
    TaskNameEmpty,
    TaskNameTooLong,
    TaskDescriptionTooLong,
    TaskTimestampInvalid,
    TaskTimestampOrNoneInvalid,
    TaskProjectIdNotFound,
    TaskNoParentIdOnNonMajorTask,
    TaskParentIdNotFound,
    TaskParentLevelInvalid,
    TaskParentIdCannotBeSameAsTaskId,
    TaskCreateFailed,
    TaskGetByIdFailed,
    TaskGetAllFailed,
    TaskGetByFilterFailed,
    TaskUpdateFailed,
    TaskDeleteFailed,
    TaskDeleteFailedByIdNotFound,
    UserAssignCreateFailed,
    UserAssignGetByIdFailed,
    UserAssignGetByTaskIdFailed,
    UserAssignGetByUserIdFailed,
    UserAssignGetByUserIdAndTaskIdFailed,
    UserAssignGetAllFailed,
    UserAssignUpdateFailed,
    UserAssignDeleteFailed,
    UserAssignDeleteFailedByIdNotFound,
    UserAssignUserIdInvalid,
    UserAssignTaskIdInvalid,
    UserAssignUserIdNotFound,
    UserAssignTaskIdNotFound,
    UserAssignToNotMaxLevelTask,
    UserAssignSameUserAssignExists,
    CommentIdInvalid,
    CommentIdMustBeNone,
    CommentCreateFailed,
    CommentGetByIdFailed,
    CommentGetByTaskIdFailed,
    CommentGetByUserIdFailed,
    CommentGetByUserIdAndTaskIdFailed,
    CommentGetAllFailed,
    CommentUpdateFailed,
    CommentDeleteFailed,
    CommentDeleteFailedByIdNotFound,
    CommentUserIdInvalid,
    CommentTaskIdInvalid,
    CommentIdNotFound,
    CommentUserIdNotFound,
    CommentTaskIdNotFound,
    CommentContentEmpty,
    CommentContentTooLong,
    CommentToNotMaxLevelTask,
    CommentGetByIdNotFound,
    CommentGetPaginationNotFound,
    CommentGetCountFailed,
    CommentHandlerGetCommentInvalidPage,
    CommentHandlerGetCommentInvalidTarget,
    CommentHandlerGetCommentNoIdSpecified,
    CommentHandlerGetCommentNoTaskIdSpecified,
    CommentHandlerGetCommentNoUserIdSpecified,
    CommentHandlerInvalidJsonPost,
    CommentHandlerPathAndBodyIdMismatch,
    CommentHandlerInvalidQuery,
    CommentHandlerInvalidPath,
    ProjectIdMustBeNone,
    ProjectGetByIdNotFound,
    ProjectGetByNameNotFound,
    ProjectGetProjectsCountFailed,
    ProjectHandlerGetProjectsInvalidPage,
    ProjectHandlerGetProjectsInvalidTarget,
    ProjectHandlerGetProjectsNoNameSpecified,
    ProjectHandlerGetProjectsNoIdSpecified,
    ProjectHandlerPathAndBodyIdMismatch,
    ProjectHandlerInvalidJsonPost,
    ProjectHandlerInvalidQuery,
    ProjectHandlerInvalidPath,
    NoPageSpecified,
    NoPageSizeSpecified,
    InvalidPagination,
    PageSizeTooLarge,
    NoDataFoundInPagination,
    TaskIdMustBeNone,
    TaskGetCountFailed,
    TaskGetPaginationNotFound,
    TaskGetByIdNotFound,
    TaskHandlerGetTasksInvalidPage,
    TaskHandlerGetTasksInvalidTarget,
    TaskHandlerGetTasksNoIdSpecified,
    TaskHandlerInvalidJsonPost,
    TaskHandlerPathAndBodyIdMismatch,
    TaskUserGetAllFailed,
    TaskUserGetByFilterFailed,
    TaskUserGetPaginationNotFound,
    UserIdMustBeNone,
    UserGetUsersCountFailed,
    UserGetUsersPagenationNotFound,
    UserAssignIdMustBeNone,
    UserAssignGetByIdNotFound,
    UserAssignGetPaginationNotFound,
    UserAssignGetByUserIdAndTaskIdNotFound,
    UserAssignGetUserAssignsCountFailed,
    UserAssignIdInvalid,
    UserAssignHandlerGetUserAssignsInvalidPage,
    UserAssignHandlerGetUserAssignsInvalidTarget,
    UserAssignHandlerGetUserAssignsNoIdSpecified,
    UserAssignHandlerGetUserAssignsNoUserIdSpecified,
    UserAssignHandlerGetUserAssignsNoTaskIdSpecified,
    UserAssignHandlerInvalidJsonPost,
    UserAssignHandlerPathAndBodyIdMismatch,
    UserAssignHandlerInvalidQuery,
    UserAssignHandlerInvalidPath,
    UserHandlerGetUsersInvalidPage,
    UserGetByIdNotFound,
    UserGetByNameNotFound,
    UserHandlerGetUsersInvalidTarget,
    UserHandlerGetUsersNoNameSpecified,
    UserHandlerGetUsersNoIdSpecified,
    UserHandlerPathAndBodyIdMismatch,
    UserHandlerInvalidJsonPost,
    TaskHandlerInvalidPath,
    TaskHandlerInvalidQuery,
    UserHandlerInvalidPath,
    UserHandlerInvalidQuery,
}

impl ErrorKey {
    /// The name of the key, as the error code that messages start with.
    pub open spec fn name(self) -> Seq<char> {
        match self {
            ErrorKey::UserIdInvalid => "UserIdInvalid"@,
            ErrorKey::UserNameEmpty => "UserNameEmpty"@,
            ErrorKey::UserNameTooLong => "UserNameTooLong"@,
            ErrorKey::UserNameContainsInvalidCharacters => "UserNameContainsInvalidCharacters"@,
            ErrorKey::UserEmailEmpty => "UserEmailEmpty"@,
            ErrorKey::UserEmailTooLong => "UserEmailTooLong"@,
            ErrorKey::UserEmailInvalid => "UserEmailInvalid"@,
            ErrorKey::UserPasswordEmpty => "UserPasswordEmpty"@,
            ErrorKey::UserPasswordInvalid => "UserPasswordInvalid"@,
            ErrorKey::UserCreateFailed => "UserCreateFailed"@,
            ErrorKey::UserGetByIdFailed => "UserGetByIdFailed"@,
            ErrorKey::UserGetByNameFailed => "UserGetByNameFailed"@,
            ErrorKey::UserGetAllFailed => "UserGetAllFailed"@,
            ErrorKey::UserUpdateFailed => "UserUpdateFailed"@,
            ErrorKey::UserDeleteFailed => "UserDeleteFailed"@,
            ErrorKey::UserDeleteFailedByIdNotFound => "UserDeleteFailedByIdNotFound"@,
            ErrorKey::ProjectIdInvalid => "ProjectIdInvalid"@,
            ErrorKey::ProjectNameEmpty => "ProjectNameEmpty"@,
            ErrorKey::ProjectNameTooLong => "ProjectNameTooLong"@,
            ErrorKey::ProjectCreateFailed => "ProjectCreateFailed"@,
            ErrorKey::ProjectGetByIdFailed => "ProjectGetByIdFailed"@,
            ErrorKey::ProjectGetByNameFailed => "ProjectGetByNameFailed"@,
            ErrorKey::ProjectGetAllFailed => "ProjectGetAllFailed"@,
            ErrorKey::ProjectUpdateFailed => "ProjectUpdateFailed"@,
            ErrorKey::ProjectDeleteFailed => "ProjectDeleteFailed"@,
            ErrorKey::ProjectDeleteFailedByIdNotFound => "ProjectDeleteFailedByIdNotFound"@,
            ErrorKey::TaskIdInvalid => "TaskIdInvalid"@,
            ErrorKey::TaskProjectIdInvalid => "TaskProjectIdInvalid"@,
            ErrorKey::TaskParentIdInvalid => "TaskParentIdInvalid"@,
            ErrorKey::TaskLevelInvalid => "TaskLevelInvalid"@,
            ErrorKey::TaskStatusInvalid => "TaskStatusInvalid"@,
            ErrorKey::TaskNameEmpty => "TaskNameEmpty"@,
            ErrorKey::TaskNameTooLong => "TaskNameTooLong"@,
            ErrorKey::TaskDescriptionTooLong => "TaskDescriptionTooLong"@,
            ErrorKey::TaskTimestampInvalid => "TaskTimestampInvalid"@,
            ErrorKey::TaskTimestampOrNoneInvalid => "TaskTimestampOrNoneInvalid"@,
            ErrorKey::TaskProjectIdNotFound => "TaskProjectIdNotFound"@,
            ErrorKey::TaskNoParentIdOnNonMajorTask => "TaskNoParentIdOnNonMajorTask"@,
            ErrorKey::TaskParentIdNotFound => "TaskParentIdNotFound"@,
            ErrorKey::TaskParentLevelInvalid => "TaskParentLevelInvalid"@,
            ErrorKey::TaskParentIdCannotBeSameAsTaskId => "TaskParentIdCannotBeSameAsTaskId"@,
            ErrorKey::TaskCreateFailed => "TaskCreateFailed"@,
            ErrorKey::TaskGetByIdFailed => "TaskGetByIdFailed"@,
            ErrorKey::TaskGetAllFailed => "TaskGetAllFailed"@,
            ErrorKey::TaskGetByFilterFailed => "TaskGetByFilterFailed"@,
            ErrorKey::TaskUpdateFailed => "TaskUpdateFailed"@,
            ErrorKey::TaskDeleteFailed => "TaskDeleteFailed"@,
            ErrorKey::TaskDeleteFailedByIdNotFound => "TaskDeleteFailedByIdNotFound"@,
            ErrorKey::UserAssignCreateFailed => "UserAssignCreateFailed"@,
            ErrorKey::UserAssignGetByIdFailed => "UserAssignGetByIdFailed"@,
            ErrorKey::UserAssignGetByTaskIdFailed => "UserAssignGetByTaskIdFailed"@,
            ErrorKey::UserAssignGetByUserIdFailed => "UserAssignGetByUserIdFailed"@,
            ErrorKey::UserAssignGetByUserIdAndTaskIdFailed => "UserAssignGetByUserIdAndTaskIdFailed"@,
            ErrorKey::UserAssignGetAllFailed => "UserAssignGetAllFailed"@,
            ErrorKey::UserAssignUpdateFailed => "UserAssignUpdateFailed"@,
            ErrorKey::UserAssignDeleteFailed => "UserAssignDeleteFailed"@,
            ErrorKey::UserAssignDeleteFailedByIdNotFound => "UserAssignDeleteFailedByIdNotFound"@,
            ErrorKey::UserAssignUserIdInvalid => "UserAssignUserIdInvalid"@,
            ErrorKey::UserAssignTaskIdInvalid => "UserAssignTaskIdInvalid"@,
            ErrorKey::UserAssignUserIdNotFound => "UserAssignUserIdNotFound"@,
            ErrorKey::UserAssignTaskIdNotFound => "UserAssignTaskIdNotFound"@,
            ErrorKey::UserAssignToNotMaxLevelTask => "UserAssignToNotMaxLevelTask"@,
            ErrorKey::UserAssignSameUserAssignExists => "UserAssignSameUserAssignExists"@,
            ErrorKey::CommentIdInvalid => "CommentIdInvalid"@,
            ErrorKey::CommentIdMustBeNone => "CommentIdMustBeNone"@,
            ErrorKey::CommentCreateFailed => "CommentCreateFailed"@,
            ErrorKey::CommentGetByIdFailed => "CommentGetByIdFailed"@,
            ErrorKey::CommentGetByTaskIdFailed => "CommentGetByTaskIdFailed"@,
            ErrorKey::CommentGetByUserIdFailed => "CommentGetByUserIdFailed"@,
            ErrorKey::CommentGetByUserIdAndTaskIdFailed => "CommentGetByUserIdAndTaskIdFailed"@,
            ErrorKey::CommentGetAllFailed => "CommentGetAllFailed"@,
            ErrorKey::CommentUpdateFailed => "CommentUpdateFailed"@,
            ErrorKey::CommentDeleteFailed => "CommentDeleteFailed"@,
            ErrorKey::CommentDeleteFailedByIdNotFound => "CommentDeleteFailedByIdNotFound"@,
            ErrorKey::CommentUserIdInvalid => "CommentUserIdInvalid"@,
            ErrorKey::CommentTaskIdInvalid => "CommentTaskIdInvalid"@,
            ErrorKey::CommentIdNotFound => "CommentIdNotFound"@,
            ErrorKey::CommentUserIdNotFound => "CommentUserIdNotFound"@,
            ErrorKey::CommentTaskIdNotFound => "CommentTaskIdNotFound"@,
            ErrorKey::CommentContentEmpty => "CommentContentEmpty"@,
            ErrorKey::CommentContentTooLong => "CommentContentTooLong"@,
            ErrorKey::CommentToNotMaxLevelTask => "CommentToNotMaxLevelTask"@,
            ErrorKey::CommentGetByIdNotFound => "CommentGetByIdNotFound"@,
            ErrorKey::CommentGetPaginationNotFound => "CommentGetPaginationNotFound"@,
            ErrorKey::CommentGetCountFailed => "CommentGetCountFailed"@,
            ErrorKey::CommentHandlerGetCommentInvalidPage => "CommentHandlerGetCommentInvalidPage"@,
            ErrorKey::CommentHandlerGetCommentInvalidTarget => "CommentHandlerGetCommentInvalidTarget"@,
            ErrorKey::CommentHandlerGetCommentNoIdSpecified => "CommentHandlerGetCommentNoIdSpecified"@,
            ErrorKey::CommentHandlerGetCommentNoTaskIdSpecified => "CommentHandlerGetCommentNoTaskIdSpecified"@,
            ErrorKey::CommentHandlerGetCommentNoUserIdSpecified => "CommentHandlerGetCommentNoUserIdSpecified"@,
            ErrorKey::CommentHandlerInvalidJsonPost => "CommentHandlerInvalidJsonPost"@,
            ErrorKey::CommentHandlerPathAndBodyIdMismatch => "CommentHandlerPathAndBodyIdMismatch"@,
            ErrorKey::CommentHandlerInvalidQuery => "CommentHandlerInvalidQuery"@,
            ErrorKey::CommentHandlerInvalidPath => "CommentHandlerInvalidPath"@,
            ErrorKey::ProjectIdMustBeNone => "ProjectIdMustBeNone"@,
            ErrorKey::ProjectGetByIdNotFound => "ProjectGetByIdNotFound"@,
            ErrorKey::ProjectGetByNameNotFound => "ProjectGetByNameNotFound"@,
            ErrorKey::ProjectGetProjectsCountFailed => "ProjectGetProjectsCountFailed"@,
            ErrorKey::ProjectHandlerGetProjectsInvalidPage => "ProjectHandlerGetProjectsInvalidPage"@,
            ErrorKey::ProjectHandlerGetProjectsInvalidTarget => "ProjectHandlerGetProjectsInvalidTarget"@,
            ErrorKey::ProjectHandlerGetProjectsNoNameSpecified => "ProjectHandlerGetProjectsNoNameSpecified"@,
            ErrorKey::ProjectHandlerGetProjectsNoIdSpecified => "ProjectHandlerGetProjectsNoIdSpecified"@,
            ErrorKey::ProjectHandlerPathAndBodyIdMismatch => "ProjectHandlerPathAndBodyIdMismatch"@,
            ErrorKey::ProjectHandlerInvalidJsonPost => "ProjectHandlerInvalidJsonPost"@,
            ErrorKey::ProjectHandlerInvalidQuery => "ProjectHandlerInvalidQuery"@,
            ErrorKey::ProjectHandlerInvalidPath => "ProjectHandlerInvalidPath"@,
            ErrorKey::NoPageSpecified => "NoPageSpecified"@,
            ErrorKey::NoPageSizeSpecified => "NoPageSizeSpecified"@,
            ErrorKey::InvalidPagination => "InvalidPagination"@,
            ErrorKey::PageSizeTooLarge => "PageSizeTooLarge"@,
            ErrorKey::NoDataFoundInPagination => "NoDataFoundInPagination"@,
            ErrorKey::TaskIdMustBeNone => "TaskIdMustBeNone"@,
            ErrorKey::TaskGetCountFailed => "TaskGetCountFailed"@,
            ErrorKey::TaskGetPaginationNotFound => "TaskGetPaginationNotFound"@,
            ErrorKey::TaskGetByIdNotFound => "TaskGetByIdNotFound"@,
            ErrorKey::TaskHandlerGetTasksInvalidPage => "TaskHandlerGetTasksInvalidPage"@,
            ErrorKey::TaskHandlerGetTasksInvalidTarget => "TaskHandlerGetTasksInvalidTarget"@,
            ErrorKey::TaskHandlerGetTasksNoIdSpecified => "TaskHandlerGetTasksNoIdSpecified"@,
            ErrorKey::TaskHandlerInvalidJsonPost => "TaskHandlerInvalidJsonPost"@,
            ErrorKey::TaskHandlerPathAndBodyIdMismatch => "TaskHandlerPathAndBodyIdMismatch"@,
            ErrorKey::TaskUserGetAllFailed => "TaskUserGetAllFailed"@,
            ErrorKey::TaskUserGetByFilterFailed => "TaskUserGetByFilterFailed"@,
            ErrorKey::TaskUserGetPaginationNotFound => "TaskUserGetPaginationNotFound"@,
            ErrorKey::UserIdMustBeNone => "UserIdMustBeNone"@,
            ErrorKey::UserGetUsersCountFailed => "UserGetUsersCountFailed"@,
            ErrorKey::UserGetUsersPagenationNotFound => "UserGetUsersPagenationNotFound"@,
            ErrorKey::UserAssignIdMustBeNone => "UserAssignIdMustBeNone"@,
            ErrorKey::UserAssignGetByIdNotFound => "UserAssignGetByIdNotFound"@,
            ErrorKey::UserAssignGetPaginationNotFound => "UserAssignGetPaginationNotFound"@,
            ErrorKey::UserAssignGetByUserIdAndTaskIdNotFound => "UserAssignGetByUserIdAndTaskIdNotFound"@,
            ErrorKey::UserAssignGetUserAssignsCountFailed => "UserAssignGetUserAssignsCountFailed"@,
            ErrorKey::UserAssignIdInvalid => "UserAssignIdInvalid"@,
            ErrorKey::UserAssignHandlerGetUserAssignsInvalidPage => "UserAssignHandlerGetUserAssignsInvalidPage"@,
            ErrorKey::UserAssignHandlerGetUserAssignsInvalidTarget => "UserAssignHandlerGetUserAssignsInvalidTarget"@,
            ErrorKey::UserAssignHandlerGetUserAssignsNoIdSpecified => "UserAssignHandlerGetUserAssignsNoIdSpecified"@,
            ErrorKey::UserAssignHandlerGetUserAssignsNoUserIdSpecified => "UserAssignHandlerGetUserAssignsNoUserIdSpecified"@,
            ErrorKey::UserAssignHandlerGetUserAssignsNoTaskIdSpecified => "UserAssignHandlerGetUserAssignsNoTaskIdSpecified"@,
            ErrorKey::UserAssignHandlerInvalidJsonPost => "UserAssignHandlerInvalidJsonPost"@,
            ErrorKey::UserAssignHandlerPathAndBodyIdMismatch => "UserAssignHandlerPathAndBodyIdMismatch"@,
            ErrorKey::UserAssignHandlerInvalidQuery => "UserAssignHandlerInvalidQuery"@,
            ErrorKey::UserAssignHandlerInvalidPath => "UserAssignHandlerInvalidPath"@,
            ErrorKey::UserHandlerGetUsersInvalidPage => "UserHandlerGetUsersInvalidPage"@,
            ErrorKey::UserGetByIdNotFound => "UserGetByIdNotFound"@,
            ErrorKey::UserGetByNameNotFound => "UserGetByNameNotFound"@,
            ErrorKey::UserHandlerGetUsersInvalidTarget => "UserHandlerGetUsersInvalidTarget"@,
            ErrorKey::UserHandlerGetUsersNoNameSpecified => "UserHandlerGetUsersNoNameSpecified"@,
            ErrorKey::UserHandlerGetUsersNoIdSpecified => "UserHandlerGetUsersNoIdSpecified"@,
            ErrorKey::UserHandlerPathAndBodyIdMismatch => "UserHandlerPathAndBodyIdMismatch"@,
            ErrorKey::UserHandlerInvalidJsonPost => "UserHandlerInvalidJsonPost"@,
            ErrorKey::TaskHandlerInvalidPath => "TaskHandlerInvalidPath"@,
            ErrorKey::TaskHandlerInvalidQuery => "TaskHandlerInvalidQuery"@,
            ErrorKey::UserHandlerInvalidPath => "UserHandlerInvalidPath"@,
            ErrorKey::UserHandlerInvalidQuery => "UserHandlerInvalidQuery"@,
        }
    }

    /// The number that identifies the key in a message table.
    pub open spec fn code(self) -> u64 {
        match self {
            ErrorKey::UserIdInvalid => 0,
            ErrorKey::UserNameEmpty => 1,
            ErrorKey::UserNameTooLong => 2,
            ErrorKey::UserNameContainsInvalidCharacters => 3,
            ErrorKey::UserEmailEmpty => 4,
            ErrorKey::UserEmailTooLong => 5,
            ErrorKey::UserEmailInvalid => 6,
            ErrorKey::UserPasswordEmpty => 7,
            ErrorKey::UserPasswordInvalid => 8,
            ErrorKey::UserCreateFailed => 9,
            ErrorKey::UserGetByIdFailed => 10,
            ErrorKey::UserGetByNameFailed => 11,
            ErrorKey::UserGetAllFailed => 12,
            ErrorKey::UserUpdateFailed => 13,
            ErrorKey::UserDeleteFailed => 14,
            ErrorKey::UserDeleteFailedByIdNotFound => 15,
            ErrorKey::ProjectIdInvalid => 16,
            ErrorKey::ProjectNameEmpty => 17,
            ErrorKey::ProjectNameTooLong => 18,
            ErrorKey::ProjectCreateFailed => 19,
            ErrorKey::ProjectGetByIdFailed => 20,
            ErrorKey::ProjectGetByNameFailed => 21,
            ErrorKey::ProjectGetAllFailed => 22,
            ErrorKey::ProjectUpdateFailed => 23,
            ErrorKey::ProjectDeleteFailed => 24,
            ErrorKey::ProjectDeleteFailedByIdNotFound => 25,
            ErrorKey::TaskIdInvalid => 26,
            ErrorKey::TaskProjectIdInvalid => 27,
            ErrorKey::TaskParentIdInvalid => 28,
            ErrorKey::TaskLevelInvalid => 29,
            ErrorKey::TaskStatusInvalid => 30,
            ErrorKey::TaskNameEmpty => 31,
            ErrorKey::TaskNameTooLong => 32,
            ErrorKey::TaskDescriptionTooLong => 33,
            ErrorKey::TaskTimestampInvalid => 34,
            ErrorKey::TaskTimestampOrNoneInvalid => 35,
            ErrorKey::TaskProjectIdNotFound => 36,
            ErrorKey::TaskNoParentIdOnNonMajorTask => 37,
            ErrorKey::TaskParentIdNotFound => 38,
            ErrorKey::TaskParentLevelInvalid => 39,
            ErrorKey::TaskParentIdCannotBeSameAsTaskId => 40,
            ErrorKey::TaskCreateFailed => 41,
            ErrorKey::TaskGetByIdFailed => 42,
            ErrorKey::TaskGetAllFailed => 43,
            ErrorKey::TaskGetByFilterFailed => 44,
            ErrorKey::TaskUpdateFailed => 45,
            ErrorKey::TaskDeleteFailed => 46,
            ErrorKey::TaskDeleteFailedByIdNotFound => 47,
            ErrorKey::UserAssignCreateFailed => 48,
            ErrorKey::UserAssignGetByIdFailed => 49,
            ErrorKey::UserAssignGetByTaskIdFailed => 50,
            ErrorKey::UserAssignGetByUserIdFailed => 51,
            ErrorKey::UserAssignGetByUserIdAndTaskIdFailed => 52,
            ErrorKey::UserAssignGetAllFailed => 53,
            ErrorKey::UserAssignUpdateFailed => 54,
            ErrorKey::UserAssignDeleteFailed => 55,
            ErrorKey::UserAssignDeleteFailedByIdNotFound => 56,
            ErrorKey::UserAssignUserIdInvalid => 57,
            ErrorKey::UserAssignTaskIdInvalid => 58,
            ErrorKey::UserAssignUserIdNotFound => 59,
            ErrorKey::UserAssignTaskIdNotFound => 60,
            ErrorKey::UserAssignToNotMaxLevelTask => 61,
            ErrorKey::UserAssignSameUserAssignExists => 62,
            ErrorKey::CommentIdInvalid => 63,
            ErrorKey::CommentIdMustBeNone => 64,
            ErrorKey::CommentCreateFailed => 65,
            ErrorKey::CommentGetByIdFailed => 66,
            ErrorKey::CommentGetByTaskIdFailed => 67,
            ErrorKey::CommentGetByUserIdFailed => 68,
            ErrorKey::CommentGetByUserIdAndTaskIdFailed => 69,
            ErrorKey::CommentGetAllFailed => 70,
            ErrorKey::CommentUpdateFailed => 71,
            ErrorKey::CommentDeleteFailed => 72,
            ErrorKey::CommentDeleteFailedByIdNotFound => 73,
            ErrorKey::CommentUserIdInvalid => 74,
            ErrorKey::CommentTaskIdInvalid => 75,
            ErrorKey::CommentIdNotFound => 76,
            ErrorKey::CommentUserIdNotFound => 77,
            ErrorKey::CommentTaskIdNotFound => 78,
            ErrorKey::CommentContentEmpty => 79,
            ErrorKey::CommentContentTooLong => 80,
            ErrorKey::CommentToNotMaxLevelTask => 81,
            ErrorKey::CommentGetByIdNotFound => 82,
            ErrorKey::CommentGetPaginationNotFound => 83,
            ErrorKey::CommentGetCountFailed => 84,
            ErrorKey::CommentHandlerGetCommentInvalidPage => 85,
            ErrorKey::CommentHandlerGetCommentInvalidTarget => 86,
            ErrorKey::CommentHandlerGetCommentNoIdSpecified => 87,
            ErrorKey::CommentHandlerGetCommentNoTaskIdSpecified => 88,
            ErrorKey::CommentHandlerGetCommentNoUserIdSpecified => 89,
            ErrorKey::CommentHandlerInvalidJsonPost => 90,
            ErrorKey::CommentHandlerPathAndBodyIdMismatch => 91,
            ErrorKey::CommentHandlerInvalidQuery => 92,
            ErrorKey::CommentHandlerInvalidPath => 93,
            ErrorKey::ProjectIdMustBeNone => 94,
            ErrorKey::ProjectGetByIdNotFound => 95,
            ErrorKey::ProjectGetByNameNotFound => 96,
            ErrorKey::ProjectGetProjectsCountFailed => 97,
            ErrorKey::ProjectHandlerGetProjectsInvalidPage => 98,
            ErrorKey::ProjectHandlerGetProjectsInvalidTarget => 99,
            ErrorKey::ProjectHandlerGetProjectsNoNameSpecified => 100,
            ErrorKey::ProjectHandlerGetProjectsNoIdSpecified => 101,
            ErrorKey::ProjectHandlerPathAndBodyIdMismatch => 102,
            ErrorKey::ProjectHandlerInvalidJsonPost => 103,
            ErrorKey::ProjectHandlerInvalidQuery => 104,
            ErrorKey::ProjectHandlerInvalidPath => 105,
            ErrorKey::NoPageSpecified => 106,
            ErrorKey::NoPageSizeSpecified => 107,
            ErrorKey::InvalidPagination => 108,
            ErrorKey::PageSizeTooLarge => 109,
            ErrorKey::NoDataFoundInPagination => 110,
            ErrorKey::TaskIdMustBeNone => 111,
            ErrorKey::TaskGetCountFailed => 112,
            ErrorKey::TaskGetPaginationNotFound => 113,
            ErrorKey::TaskGetByIdNotFound => 114,
            ErrorKey::TaskHandlerGetTasksInvalidPage => 115,
            ErrorKey::TaskHandlerGetTasksInvalidTarget => 116,
            ErrorKey::TaskHandlerGetTasksNoIdSpecified => 117,
            ErrorKey::TaskHandlerInvalidJsonPost => 118,
            ErrorKey::TaskHandlerPathAndBodyIdMismatch => 119,
            ErrorKey::TaskUserGetAllFailed => 120,
            ErrorKey::TaskUserGetByFilterFailed => 121,
            ErrorKey::TaskUserGetPaginationNotFound => 122,
            ErrorKey::UserIdMustBeNone => 123,
            ErrorKey::UserGetUsersCountFailed => 124,
            ErrorKey::UserGetUsersPagenationNotFound => 125,
            ErrorKey::UserAssignIdMustBeNone => 126,
            ErrorKey::UserAssignGetByIdNotFound => 127,
            ErrorKey::UserAssignGetPaginationNotFound => 128,
            ErrorKey::UserAssignGetByUserIdAndTaskIdNotFound => 129,
            ErrorKey::UserAssignGetUserAssignsCountFailed => 130,
            ErrorKey::UserAssignIdInvalid => 131,
            ErrorKey::UserAssignHandlerGetUserAssignsInvalidPage => 132,
            ErrorKey::UserAssignHandlerGetUserAssignsInvalidTarget => 133,
            ErrorKey::UserAssignHandlerGetUserAssignsNoIdSpecified => 134,
            ErrorKey::UserAssignHandlerGetUserAssignsNoUserIdSpecified => 135,
            ErrorKey::UserAssignHandlerGetUserAssignsNoTaskIdSpecified => 136,
            ErrorKey::UserAssignHandlerInvalidJsonPost => 137,
            ErrorKey::UserAssignHandlerPathAndBodyIdMismatch => 138,
            ErrorKey::UserAssignHandlerInvalidQuery => 139,
            ErrorKey::UserAssignHandlerInvalidPath => 140,
            ErrorKey::UserHandlerGetUsersInvalidPage => 141,
            ErrorKey::UserGetByIdNotFound => 142,
            ErrorKey::UserGetByNameNotFound => 143,
            ErrorKey::UserHandlerGetUsersInvalidTarget => 144,
            ErrorKey::UserHandlerGetUsersNoNameSpecified => 145,
            ErrorKey::UserHandlerGetUsersNoIdSpecified => 146,
            ErrorKey::UserHandlerPathAndBodyIdMismatch => 147,
            ErrorKey::UserHandlerInvalidJsonPost => 148,
            ErrorKey::TaskHandlerInvalidPath => 149,
            ErrorKey::TaskHandlerInvalidQuery => 150,
            ErrorKey::UserHandlerInvalidPath => 151,
            ErrorKey::UserHandlerInvalidQuery => 152,
        }
    }

    /// The key whose number is `c`, if any.
    pub open spec fn from_code(c: u64) -> Option<ErrorKey> {
        if c == 0 {
            Some(ErrorKey::UserIdInvalid)
        } else if c == 1 {
            Some(ErrorKey::UserNameEmpty)
        } else if c == 2 {
            Some(ErrorKey::UserNameTooLong)
        } else if c == 3 {
            Some(ErrorKey::UserNameContainsInvalidCharacters)
        } else if c == 4 {
            Some(ErrorKey::UserEmailEmpty)
        } else if c == 5 {
            Some(ErrorKey::UserEmailTooLong)
        } else if c == 6 {
            Some(ErrorKey::UserEmailInvalid)
        } else if c == 7 {
            Some(ErrorKey::UserPasswordEmpty)
        } else if c == 8 {
            Some(ErrorKey::UserPasswordInvalid)
        } else if c == 9 {
            Some(ErrorKey::UserCreateFailed)
        } else if c == 10 {
            Some(ErrorKey::UserGetByIdFailed)
        } else if c == 11 {
            Some(ErrorKey::UserGetByNameFailed)
        } else if c == 12 {
            Some(ErrorKey::UserGetAllFailed)
        } else if c == 13 {
            Some(ErrorKey::UserUpdateFailed)
        } else if c == 14 {
            Some(ErrorKey::UserDeleteFailed)
        } else if c == 15 {
            Some(ErrorKey::UserDeleteFailedByIdNotFound)
        } else if c == 16 {
            Some(ErrorKey::ProjectIdInvalid)
        } else if c == 17 {
            Some(ErrorKey::ProjectNameEmpty)
        } else if c == 18 {
            Some(ErrorKey::ProjectNameTooLong)
        } else if c == 19 {
            Some(ErrorKey::ProjectCreateFailed)
        } else if c == 20 {
            Some(ErrorKey::ProjectGetByIdFailed)
        } else if c == 21 {
            Some(ErrorKey::ProjectGetByNameFailed)
        } else if c == 22 {
            Some(ErrorKey::ProjectGetAllFailed)
        } else if c == 23 {
            Some(ErrorKey::ProjectUpdateFailed)
        } else if c == 24 {
            Some(ErrorKey::ProjectDeleteFailed)
        } else if c == 25 {
            Some(ErrorKey::ProjectDeleteFailedByIdNotFound)
        } else if c == 26 {
            Some(ErrorKey::TaskIdInvalid)
        } else if c == 27 {
            Some(ErrorKey::TaskProjectIdInvalid)
        } else if c == 28 {
            Some(ErrorKey::TaskParentIdInvalid)
        } else if c == 29 {
            Some(ErrorKey::TaskLevelInvalid)
        } else if c == 30 {
            Some(ErrorKey::TaskStatusInvalid)
        } else if c == 31 {
            Some(ErrorKey::TaskNameEmpty)
        } else if c == 32 {
            Some(ErrorKey::TaskNameTooLong)
        } else if c == 33 {
            Some(ErrorKey::TaskDescriptionTooLong)
        } else if c == 34 {
            Some(ErrorKey::TaskTimestampInvalid)
        } else if c == 35 {
            Some(ErrorKey::TaskTimestampOrNoneInvalid)
        } else if c == 36 {
            Some(ErrorKey::TaskProjectIdNotFound)
        } else if c == 37 {
            Some(ErrorKey::TaskNoParentIdOnNonMajorTask)
        } else if c == 38 {
            Some(ErrorKey::TaskParentIdNotFound)
        } else if c == 39 {
            Some(ErrorKey::TaskParentLevelInvalid)
        } else if c == 40 {
            Some(ErrorKey::TaskParentIdCannotBeSameAsTaskId)
        } else if c == 41 {
            Some(ErrorKey::TaskCreateFailed)
        } else if c == 42 {
            Some(ErrorKey::TaskGetByIdFailed)
        } else if c == 43 {
            Some(ErrorKey::TaskGetAllFailed)
        } else if c == 44 {
            Some(ErrorKey::TaskGetByFilterFailed)
        } else if c == 45 {
            Some(ErrorKey::TaskUpdateFailed)
        } else if c == 46 {
            Some(ErrorKey::TaskDeleteFailed)
        } else if c == 47 {
            Some(ErrorKey::TaskDeleteFailedByIdNotFound)
        } else if c == 48 {
            Some(ErrorKey::UserAssignCreateFailed)
        } else if c == 49 {
            Some(ErrorKey::UserAssignGetByIdFailed)
        } else if c == 50 {
            Some(ErrorKey::UserAssignGetByTaskIdFailed)
        } else if c == 51 {
            Some(ErrorKey::UserAssignGetByUserIdFailed)
        } else if c == 52 {
            Some(ErrorKey::UserAssignGetByUserIdAndTaskIdFailed)
        } else if c == 53 {
            Some(ErrorKey::UserAssignGetAllFailed)
        } else if c == 54 {
            Some(ErrorKey::UserAssignUpdateFailed)
        } else if c == 55 {
            Some(ErrorKey::UserAssignDeleteFailed)
        } else if c == 56 {
            Some(ErrorKey::UserAssignDeleteFailedByIdNotFound)
        } else if c == 57 {
            Some(ErrorKey::UserAssignUserIdInvalid)
        } else if c == 58 {
            Some(ErrorKey::UserAssignTaskIdInvalid)
        } else if c == 59 {
            Some(ErrorKey::UserAssignUserIdNotFound)
        } else if c == 60 {
            Some(ErrorKey::UserAssignTaskIdNotFound)
        } else if c == 61 {
            Some(ErrorKey::UserAssignToNotMaxLevelTask)
        } else if c == 62 {
            Some(ErrorKey::UserAssignSameUserAssignExists)
        } else if c == 63 {
            Some(ErrorKey::CommentIdInvalid)
        } else if c == 64 {
            Some(ErrorKey::CommentIdMustBeNone)
        } else if c == 65 {
            Some(ErrorKey::CommentCreateFailed)
        } else if c == 66 {
            Some(ErrorKey::CommentGetByIdFailed)
        } else if c == 67 {
            Some(ErrorKey::CommentGetByTaskIdFailed)
        } else if c == 68 {
            Some(ErrorKey::CommentGetByUserIdFailed)
        } else if c == 69 {
            Some(ErrorKey::CommentGetByUserIdAndTaskIdFailed)
        } else if c == 70 {
            Some(ErrorKey::CommentGetAllFailed)
        } else if c == 71 {
            Some(ErrorKey::CommentUpdateFailed)
        } else if c == 72 {
            Some(ErrorKey::CommentDeleteFailed)
        } else if c == 73 {
            Some(ErrorKey::CommentDeleteFailedByIdNotFound)
        } else if c == 74 {
            Some(ErrorKey::CommentUserIdInvalid)
        } else if c == 75 {
            Some(ErrorKey::CommentTaskIdInvalid)
        } else if c == 76 {
            Some(ErrorKey::CommentIdNotFound)
        } else if c == 77 {
            Some(ErrorKey::CommentUserIdNotFound)
        } else if c == 78 {
            Some(ErrorKey::CommentTaskIdNotFound)
        } else if c == 79 {
            Some(ErrorKey::CommentContentEmpty)
        } else if c == 80 {
            Some(ErrorKey::CommentContentTooLong)
        } else if c == 81 {
            Some(ErrorKey::CommentToNotMaxLevelTask)
        } else if c == 82 {
            Some(ErrorKey::CommentGetByIdNotFound)
        } else if c == 83 {
            Some(ErrorKey::CommentGetPaginationNotFound)
        } else if c == 84 {
            Some(ErrorKey::CommentGetCountFailed)
        } else if c == 85 {
            Some(ErrorKey::CommentHandlerGetCommentInvalidPage)
        } else if c == 86 {
            Some(ErrorKey::CommentHandlerGetCommentInvalidTarget)
        } else if c == 87 {
            Some(ErrorKey::CommentHandlerGetCommentNoIdSpecified)
        } else if c == 88 {
            Some(ErrorKey::CommentHandlerGetCommentNoTaskIdSpecified)
        } else if c == 89 {
            Some(ErrorKey::CommentHandlerGetCommentNoUserIdSpecified)
        } else if c == 90 {
            Some(ErrorKey::CommentHandlerInvalidJsonPost)
        } else if c == 91 {
            Some(ErrorKey::CommentHandlerPathAndBodyIdMismatch)
        } else if c == 92 {
            Some(ErrorKey::CommentHandlerInvalidQuery)
        } else if c == 93 {
            Some(ErrorKey::CommentHandlerInvalidPath)
        } else if c == 94 {
            Some(ErrorKey::ProjectIdMustBeNone)
        } else if c == 95 {
            Some(ErrorKey::ProjectGetByIdNotFound)
        } else if c == 96 {
            Some(ErrorKey::ProjectGetByNameNotFound)
        } else if c == 97 {
            Some(ErrorKey::ProjectGetProjectsCountFailed)
        } else if c == 98 {
            Some(ErrorKey::ProjectHandlerGetProjectsInvalidPage)
        } else if c == 99 {
            Some(ErrorKey::ProjectHandlerGetProjectsInvalidTarget)
        } else if c == 100 {
            Some(ErrorKey::ProjectHandlerGetProjectsNoNameSpecified)
        } else if c == 101 {
            Some(ErrorKey::ProjectHandlerGetProjectsNoIdSpecified)
        } else if c == 102 {
            Some(ErrorKey::ProjectHandlerPathAndBodyIdMismatch)
        } else if c == 103 {
            Some(ErrorKey::ProjectHandlerInvalidJsonPost)
        } else if c == 104 {
            Some(ErrorKey::ProjectHandlerInvalidQuery)
        } else if c == 105 {
            Some(ErrorKey::ProjectHandlerInvalidPath)
        } else if c == 106 {
            Some(ErrorKey::NoPageSpecified)
        } else if c == 107 {
            Some(ErrorKey::NoPageSizeSpecified)
        } else if c == 108 {
            Some(ErrorKey::InvalidPagination)
        } else if c == 109 {
            Some(ErrorKey::PageSizeTooLarge)
        } else if c == 110 {
            Some(ErrorKey::NoDataFoundInPagination)
        } else if c == 111 {
            Some(ErrorKey::TaskIdMustBeNone)
        } else if c == 112 {
            Some(ErrorKey::TaskGetCountFailed)
        } else if c == 113 {
            Some(ErrorKey::TaskGetPaginationNotFound)
        } else if c == 114 {
            Some(ErrorKey::TaskGetByIdNotFound)
        } else if c == 115 {
            Some(ErrorKey::TaskHandlerGetTasksInvalidPage)
        } else if c == 116 {
            Some(ErrorKey::TaskHandlerGetTasksInvalidTarget)
        } else if c == 117 {
            Some(ErrorKey::TaskHandlerGetTasksNoIdSpecified)
        } else if c == 118 {
            Some(ErrorKey::TaskHandlerInvalidJsonPost)
        } else if c == 119 {
            Some(ErrorKey::TaskHandlerPathAndBodyIdMismatch)
        } else if c == 120 {
            Some(ErrorKey::TaskUserGetAllFailed)
        } else if c == 121 {
            Some(ErrorKey::TaskUserGetByFilterFailed)
        } else if c == 122 {
            Some(ErrorKey::TaskUserGetPaginationNotFound)
        } else if c == 123 {
            Some(ErrorKey::UserIdMustBeNone)
        } else if c == 124 {
            Some(ErrorKey::UserGetUsersCountFailed)
        } else if c == 125 {
            Some(ErrorKey::UserGetUsersPagenationNotFound)
        } else if c == 126 {
            Some(ErrorKey::UserAssignIdMustBeNone)
        } else if c == 127 {
            Some(ErrorKey::UserAssignGetByIdNotFound)
        } else if c == 128 {
            Some(ErrorKey::UserAssignGetPaginationNotFound)
        } else if c == 129 {
            Some(ErrorKey::UserAssignGetByUserIdAndTaskIdNotFound)
        } else if c == 130 {
            Some(ErrorKey::UserAssignGetUserAssignsCountFailed)
        } else if c == 131 {
            Some(ErrorKey::UserAssignIdInvalid)
        } else if c == 132 {
            Some(ErrorKey::UserAssignHandlerGetUserAssignsInvalidPage)
        } else if c == 133 {
            Some(ErrorKey::UserAssignHandlerGetUserAssignsInvalidTarget)
        } else if c == 134 {
            Some(ErrorKey::UserAssignHandlerGetUserAssignsNoIdSpecified)
        } else if c == 135 {
            Some(ErrorKey::UserAssignHandlerGetUserAssignsNoUserIdSpecified)
        } else if c == 136 {
            Some(ErrorKey::UserAssignHandlerGetUserAssignsNoTaskIdSpecified)
        } else if c == 137 {
            Some(ErrorKey::UserAssignHandlerInvalidJsonPost)
        } else if c == 138 {
            Some(ErrorKey::UserAssignHandlerPathAndBodyIdMismatch)
        } else if c == 139 {
            Some(ErrorKey::UserAssignHandlerInvalidQuery)
        } else if c == 140 {
            Some(ErrorKey::UserAssignHandlerInvalidPath)
        } else if c == 141 {
            Some(ErrorKey::UserHandlerGetUsersInvalidPage)
        } else if c == 142 {
            Some(ErrorKey::UserGetByIdNotFound)
        } else if c == 143 {
            Some(ErrorKey::UserGetByNameNotFound)
        } else if c == 144 {
            Some(ErrorKey::UserHandlerGetUsersInvalidTarget)
        } else if c == 145 {
            Some(ErrorKey::UserHandlerGetUsersNoNameSpecified)
        } else if c == 146 {
            Some(ErrorKey::UserHandlerGetUsersNoIdSpecified)
        } else if c == 147 {
            Some(ErrorKey::UserHandlerPathAndBodyIdMismatch)
        } else if c == 148 {
            Some(ErrorKey::UserHandlerInvalidJsonPost)
        } else if c == 149 {
            Some(ErrorKey::TaskHandlerInvalidPath)
        } else if c == 150 {
            Some(ErrorKey::TaskHandlerInvalidQuery)
        } else if c == 151 {
            Some(ErrorKey::UserHandlerInvalidPath)
        } else if c == 152 {
            Some(ErrorKey::UserHandlerInvalidQuery)
        } else {
            None
        }
    }

    /// Each key is found again from its number.
    pub proof fn lemma_code_identifies(self)
        ensures
            ErrorKey::from_code(self.code()) == Some(self),
    {
    }

    /// Two keys with the same number are the same key.
    pub proof fn lemma_code_injective(self, other: ErrorKey)
        ensures
            self.code() == other.code() ==> self == other,
    {
        self.lemma_code_identifies();
        other.lemma_code_identifies();
    }

    /// The name of the key.
    pub fn as_str(&self) -> (r: &'static str)
        ensures
            r@ == self.name(),
    {
        match self {
            ErrorKey::UserIdInvalid => "UserIdInvalid",
            ErrorKey::UserNameEmpty => "UserNameEmpty",
            ErrorKey::UserNameTooLong => "UserNameTooLong",
            ErrorKey::UserNameContainsInvalidCharacters => "UserNameContainsInvalidCharacters",
            ErrorKey::UserEmailEmpty => "UserEmailEmpty",
            ErrorKey::UserEmailTooLong => "UserEmailTooLong",
            ErrorKey::UserEmailInvalid => "UserEmailInvalid",
            ErrorKey::UserPasswordEmpty => "UserPasswordEmpty",
            ErrorKey::UserPasswordInvalid => "UserPasswordInvalid",
            ErrorKey::UserCreateFailed => "UserCreateFailed",
            ErrorKey::UserGetByIdFailed => "UserGetByIdFailed",
            ErrorKey::UserGetByNameFailed => "UserGetByNameFailed",
            ErrorKey::UserGetAllFailed => "UserGetAllFailed",
            ErrorKey::UserUpdateFailed => "UserUpdateFailed",
            ErrorKey::UserDeleteFailed => "UserDeleteFailed",
            ErrorKey::UserDeleteFailedByIdNotFound => "UserDeleteFailedByIdNotFound",
            ErrorKey::ProjectIdInvalid => "ProjectIdInvalid",
            ErrorKey::ProjectNameEmpty => "ProjectNameEmpty",
            ErrorKey::ProjectNameTooLong => "ProjectNameTooLong",
            ErrorKey::ProjectCreateFailed => "ProjectCreateFailed",
            ErrorKey::ProjectGetByIdFailed => "ProjectGetByIdFailed",
            ErrorKey::ProjectGetByNameFailed => "ProjectGetByNameFailed",
            ErrorKey::ProjectGetAllFailed => "ProjectGetAllFailed",
            ErrorKey::ProjectUpdateFailed => "ProjectUpdateFailed",
            ErrorKey::ProjectDeleteFailed => "ProjectDeleteFailed",
            ErrorKey::ProjectDeleteFailedByIdNotFound => "ProjectDeleteFailedByIdNotFound",
            ErrorKey::TaskIdInvalid => "TaskIdInvalid",
            ErrorKey::TaskProjectIdInvalid => "TaskProjectIdInvalid",
            ErrorKey::TaskParentIdInvalid => "TaskParentIdInvalid",
            ErrorKey::TaskLevelInvalid => "TaskLevelInvalid",
            ErrorKey::TaskStatusInvalid => "TaskStatusInvalid",
            ErrorKey::TaskNameEmpty => "TaskNameEmpty",
            ErrorKey::TaskNameTooLong => "TaskNameTooLong",
            ErrorKey::TaskDescriptionTooLong => "TaskDescriptionTooLong",
            ErrorKey::TaskTimestampInvalid => "TaskTimestampInvalid",
            ErrorKey::TaskTimestampOrNoneInvalid => "TaskTimestampOrNoneInvalid",
            ErrorKey::TaskProjectIdNotFound => "TaskProjectIdNotFound",
            ErrorKey::TaskNoParentIdOnNonMajorTask => "TaskNoParentIdOnNonMajorTask",
            ErrorKey::TaskParentIdNotFound => "TaskParentIdNotFound",
            ErrorKey::TaskParentLevelInvalid => "TaskParentLevelInvalid",
            ErrorKey::TaskParentIdCannotBeSameAsTaskId => "TaskParentIdCannotBeSameAsTaskId",
            ErrorKey::TaskCreateFailed => "TaskCreateFailed",
            ErrorKey::TaskGetByIdFailed => "TaskGetByIdFailed",
            ErrorKey::TaskGetAllFailed => "TaskGetAllFailed",
            ErrorKey::TaskGetByFilterFailed => "TaskGetByFilterFailed",
            ErrorKey::TaskUpdateFailed => "TaskUpdateFailed",
            ErrorKey::TaskDeleteFailed => "TaskDeleteFailed",
            ErrorKey::TaskDeleteFailedByIdNotFound => "TaskDeleteFailedByIdNotFound",
            ErrorKey::UserAssignCreateFailed => "UserAssignCreateFailed",
            ErrorKey::UserAssignGetByIdFailed => "UserAssignGetByIdFailed",
            ErrorKey::UserAssignGetByTaskIdFailed => "UserAssignGetByTaskIdFailed",
            ErrorKey::UserAssignGetByUserIdFailed => "UserAssignGetByUserIdFailed",
            ErrorKey::UserAssignGetByUserIdAndTaskIdFailed => "UserAssignGetByUserIdAndTaskIdFailed",
            ErrorKey::UserAssignGetAllFailed => "UserAssignGetAllFailed",
            ErrorKey::UserAssignUpdateFailed => "UserAssignUpdateFailed",
            ErrorKey::UserAssignDeleteFailed => "UserAssignDeleteFailed",
            ErrorKey::UserAssignDeleteFailedByIdNotFound => "UserAssignDeleteFailedByIdNotFound",
            ErrorKey::UserAssignUserIdInvalid => "UserAssignUserIdInvalid",
            ErrorKey::UserAssignTaskIdInvalid => "UserAssignTaskIdInvalid",
            ErrorKey::UserAssignUserIdNotFound => "UserAssignUserIdNotFound",
            ErrorKey::UserAssignTaskIdNotFound => "UserAssignTaskIdNotFound",
            ErrorKey::UserAssignToNotMaxLevelTask => "UserAssignToNotMaxLevelTask",
            ErrorKey::UserAssignSameUserAssignExists => "UserAssignSameUserAssignExists",
            ErrorKey::CommentIdInvalid => "CommentIdInvalid",
            ErrorKey::CommentIdMustBeNone => "CommentIdMustBeNone",
            ErrorKey::CommentCreateFailed => "CommentCreateFailed",
            ErrorKey::CommentGetByIdFailed => "CommentGetByIdFailed",
            ErrorKey::CommentGetByTaskIdFailed => "CommentGetByTaskIdFailed",
            ErrorKey::CommentGetByUserIdFailed => "CommentGetByUserIdFailed",
            ErrorKey::CommentGetByUserIdAndTaskIdFailed => "CommentGetByUserIdAndTaskIdFailed",
            ErrorKey::CommentGetAllFailed => "CommentGetAllFailed",
            ErrorKey::CommentUpdateFailed => "CommentUpdateFailed",
            ErrorKey::CommentDeleteFailed => "CommentDeleteFailed",
            ErrorKey::CommentDeleteFailedByIdNotFound => "CommentDeleteFailedByIdNotFound",
            ErrorKey::CommentUserIdInvalid => "CommentUserIdInvalid",
            ErrorKey::CommentTaskIdInvalid => "CommentTaskIdInvalid",
            ErrorKey::CommentIdNotFound => "CommentIdNotFound",
            ErrorKey::CommentUserIdNotFound => "CommentUserIdNotFound",
            ErrorKey::CommentTaskIdNotFound => "CommentTaskIdNotFound",
            ErrorKey::CommentContentEmpty => "CommentContentEmpty",
            ErrorKey::CommentContentTooLong => "CommentContentTooLong",
            ErrorKey::CommentToNotMaxLevelTask => "CommentToNotMaxLevelTask",
            ErrorKey::CommentGetByIdNotFound => "CommentGetByIdNotFound",
            ErrorKey::CommentGetPaginationNotFound => "CommentGetPaginationNotFound",
            ErrorKey::CommentGetCountFailed => "CommentGetCountFailed",
            ErrorKey::CommentHandlerGetCommentInvalidPage => "CommentHandlerGetCommentInvalidPage",
            ErrorKey::CommentHandlerGetCommentInvalidTarget => "CommentHandlerGetCommentInvalidTarget",
            ErrorKey::CommentHandlerGetCommentNoIdSpecified => "CommentHandlerGetCommentNoIdSpecified",
            ErrorKey::CommentHandlerGetCommentNoTaskIdSpecified => "CommentHandlerGetCommentNoTaskIdSpecified",
            ErrorKey::CommentHandlerGetCommentNoUserIdSpecified => "CommentHandlerGetCommentNoUserIdSpecified",
            ErrorKey::CommentHandlerInvalidJsonPost => "CommentHandlerInvalidJsonPost",
            ErrorKey::CommentHandlerPathAndBodyIdMismatch => "CommentHandlerPathAndBodyIdMismatch",
            ErrorKey::CommentHandlerInvalidQuery => "CommentHandlerInvalidQuery",
            ErrorKey::CommentHandlerInvalidPath => "CommentHandlerInvalidPath",
            ErrorKey::ProjectIdMustBeNone => "ProjectIdMustBeNone",
            ErrorKey::ProjectGetByIdNotFound => "ProjectGetByIdNotFound",
            ErrorKey::ProjectGetByNameNotFound => "ProjectGetByNameNotFound",
            ErrorKey::ProjectGetProjectsCountFailed => "ProjectGetProjectsCountFailed",
            ErrorKey::ProjectHandlerGetProjectsInvalidPage => "ProjectHandlerGetProjectsInvalidPage",
            ErrorKey::ProjectHandlerGetProjectsInvalidTarget => "ProjectHandlerGetProjectsInvalidTarget",
            ErrorKey::ProjectHandlerGetProjectsNoNameSpecified => "ProjectHandlerGetProjectsNoNameSpecified",
            ErrorKey::ProjectHandlerGetProjectsNoIdSpecified => "ProjectHandlerGetProjectsNoIdSpecified",
            ErrorKey::ProjectHandlerPathAndBodyIdMismatch => "ProjectHandlerPathAndBodyIdMismatch",
            ErrorKey::ProjectHandlerInvalidJsonPost => "ProjectHandlerInvalidJsonPost",
            ErrorKey::ProjectHandlerInvalidQuery => "ProjectHandlerInvalidQuery",
            ErrorKey::ProjectHandlerInvalidPath => "ProjectHandlerInvalidPath",
            ErrorKey::NoPageSpecified => "NoPageSpecified",
            ErrorKey::NoPageSizeSpecified => "NoPageSizeSpecified",
            ErrorKey::InvalidPagination => "InvalidPagination",
            ErrorKey::PageSizeTooLarge => "PageSizeTooLarge",
            ErrorKey::NoDataFoundInPagination => "NoDataFoundInPagination",
            ErrorKey::TaskIdMustBeNone => "TaskIdMustBeNone",
            ErrorKey::TaskGetCountFailed => "TaskGetCountFailed",
            ErrorKey::TaskGetPaginationNotFound => "TaskGetPaginationNotFound",
            ErrorKey::TaskGetByIdNotFound => "TaskGetByIdNotFound",
            ErrorKey::TaskHandlerGetTasksInvalidPage => "TaskHandlerGetTasksInvalidPage",
            ErrorKey::TaskHandlerGetTasksInvalidTarget => "TaskHandlerGetTasksInvalidTarget",
            ErrorKey::TaskHandlerGetTasksNoIdSpecified => "TaskHandlerGetTasksNoIdSpecified",
            ErrorKey::TaskHandlerInvalidJsonPost => "TaskHandlerInvalidJsonPost",
            ErrorKey::TaskHandlerPathAndBodyIdMismatch => "TaskHandlerPathAndBodyIdMismatch",
            ErrorKey::TaskUserGetAllFailed => "TaskUserGetAllFailed",
            ErrorKey::TaskUserGetByFilterFailed => "TaskUserGetByFilterFailed",
            ErrorKey::TaskUserGetPaginationNotFound => "TaskUserGetPaginationNotFound",
            ErrorKey::UserIdMustBeNone => "UserIdMustBeNone",
            ErrorKey::UserGetUsersCountFailed => "UserGetUsersCountFailed",
            ErrorKey::UserGetUsersPagenationNotFound => "UserGetUsersPagenationNotFound",
            ErrorKey::UserAssignIdMustBeNone => "UserAssignIdMustBeNone",
            ErrorKey::UserAssignGetByIdNotFound => "UserAssignGetByIdNotFound",
            ErrorKey::UserAssignGetPaginationNotFound => "UserAssignGetPaginationNotFound",
            ErrorKey::UserAssignGetByUserIdAndTaskIdNotFound => "UserAssignGetByUserIdAndTaskIdNotFound",
            ErrorKey::UserAssignGetUserAssignsCountFailed => "UserAssignGetUserAssignsCountFailed",
            ErrorKey::UserAssignIdInvalid => "UserAssignIdInvalid",
            ErrorKey::UserAssignHandlerGetUserAssignsInvalidPage => "UserAssignHandlerGetUserAssignsInvalidPage",
            ErrorKey::UserAssignHandlerGetUserAssignsInvalidTarget => "UserAssignHandlerGetUserAssignsInvalidTarget",
            ErrorKey::UserAssignHandlerGetUserAssignsNoIdSpecified => "UserAssignHandlerGetUserAssignsNoIdSpecified",
            ErrorKey::UserAssignHandlerGetUserAssignsNoUserIdSpecified => "UserAssignHandlerGetUserAssignsNoUserIdSpecified",
            ErrorKey::UserAssignHandlerGetUserAssignsNoTaskIdSpecified => "UserAssignHandlerGetUserAssignsNoTaskIdSpecified",
            ErrorKey::UserAssignHandlerInvalidJsonPost => "UserAssignHandlerInvalidJsonPost",
            ErrorKey::UserAssignHandlerPathAndBodyIdMismatch => "UserAssignHandlerPathAndBodyIdMismatch",
            ErrorKey::UserAssignHandlerInvalidQuery => "UserAssignHandlerInvalidQuery",
            ErrorKey::UserAssignHandlerInvalidPath => "UserAssignHandlerInvalidPath",
            ErrorKey::UserHandlerGetUsersInvalidPage => "UserHandlerGetUsersInvalidPage",
            ErrorKey::UserGetByIdNotFound => "UserGetByIdNotFound",
            ErrorKey::UserGetByNameNotFound => "UserGetByNameNotFound",
            ErrorKey::UserHandlerGetUsersInvalidTarget => "UserHandlerGetUsersInvalidTarget",
            ErrorKey::UserHandlerGetUsersNoNameSpecified => "UserHandlerGetUsersNoNameSpecified",
            ErrorKey::UserHandlerGetUsersNoIdSpecified => "UserHandlerGetUsersNoIdSpecified",
            ErrorKey::UserHandlerPathAndBodyIdMismatch => "UserHandlerPathAndBodyIdMismatch",
            ErrorKey::UserHandlerInvalidJsonPost => "UserHandlerInvalidJsonPost",
            ErrorKey::TaskHandlerInvalidPath => "TaskHandlerInvalidPath",
            ErrorKey::TaskHandlerInvalidQuery => "TaskHandlerInvalidQuery",
            ErrorKey::UserHandlerInvalidPath => "UserHandlerInvalidPath",
            ErrorKey::UserHandlerInvalidQuery => "UserHandlerInvalidQuery",
        }
    }

    /// The name of the key, as an owned string.
    pub fn to_string(&self) -> (r: String)
        ensures
            r@ == self.name(),
    {
        String::from_str(self.as_str())
    }

    /// The number that identifies the key in a message table.
    pub fn to_code(&self) -> (r: u64)
        ensures
            r == self.code(),
    {
        match self {
            ErrorKey::UserIdInvalid => 0,
            ErrorKey::UserNameEmpty => 1,
            ErrorKey::UserNameTooLong => 2,
            ErrorKey::UserNameContainsInvalidCharacters => 3,
            ErrorKey::UserEmailEmpty => 4,
            ErrorKey::UserEmailTooLong => 5,
            ErrorKey::UserEmailInvalid => 6,
            ErrorKey::UserPasswordEmpty => 7,
            ErrorKey::UserPasswordInvalid => 8,
            ErrorKey::UserCreateFailed => 9,
            ErrorKey::UserGetByIdFailed => 10,
            ErrorKey::UserGetByNameFailed => 11,
            ErrorKey::UserGetAllFailed => 12,
            ErrorKey::UserUpdateFailed => 13,
            ErrorKey::UserDeleteFailed => 14,
            ErrorKey::UserDeleteFailedByIdNotFound => 15,
            ErrorKey::ProjectIdInvalid => 16,
            ErrorKey::ProjectNameEmpty => 17,
            ErrorKey::ProjectNameTooLong => 18,
            ErrorKey::ProjectCreateFailed => 19,
            ErrorKey::ProjectGetByIdFailed => 20,
            ErrorKey::ProjectGetByNameFailed => 21,
            ErrorKey::ProjectGetAllFailed => 22,
            ErrorKey::ProjectUpdateFailed => 23,
            ErrorKey::ProjectDeleteFailed => 24,
            ErrorKey::ProjectDeleteFailedByIdNotFound => 25,
            ErrorKey::TaskIdInvalid => 26,
            ErrorKey::TaskProjectIdInvalid => 27,
            ErrorKey::TaskParentIdInvalid => 28,
            ErrorKey::TaskLevelInvalid => 29,
            ErrorKey::TaskStatusInvalid => 30,
            ErrorKey::TaskNameEmpty => 31,
            ErrorKey::TaskNameTooLong => 32,
            ErrorKey::TaskDescriptionTooLong => 33,
            ErrorKey::TaskTimestampInvalid => 34,
            ErrorKey::TaskTimestampOrNoneInvalid => 35,
            ErrorKey::TaskProjectIdNotFound => 36,
            ErrorKey::TaskNoParentIdOnNonMajorTask => 37,
            ErrorKey::TaskParentIdNotFound => 38,
            ErrorKey::TaskParentLevelInvalid => 39,
            ErrorKey::TaskParentIdCannotBeSameAsTaskId => 40,
            ErrorKey::TaskCreateFailed => 41,
            ErrorKey::TaskGetByIdFailed => 42,
            ErrorKey::TaskGetAllFailed => 43,
            ErrorKey::TaskGetByFilterFailed => 44,
            ErrorKey::TaskUpdateFailed => 45,
            ErrorKey::TaskDeleteFailed => 46,
            ErrorKey::TaskDeleteFailedByIdNotFound => 47,
            ErrorKey::UserAssignCreateFailed => 48,
            ErrorKey::UserAssignGetByIdFailed => 49,
            ErrorKey::UserAssignGetByTaskIdFailed => 50,
            ErrorKey::UserAssignGetByUserIdFailed => 51,
            ErrorKey::UserAssignGetByUserIdAndTaskIdFailed => 52,
            ErrorKey::UserAssignGetAllFailed => 53,
            ErrorKey::UserAssignUpdateFailed => 54,
            ErrorKey::UserAssignDeleteFailed => 55,
            ErrorKey::UserAssignDeleteFailedByIdNotFound => 56,
            ErrorKey::UserAssignUserIdInvalid => 57,
            ErrorKey::UserAssignTaskIdInvalid => 58,
            ErrorKey::UserAssignUserIdNotFound => 59,
            ErrorKey::UserAssignTaskIdNotFound => 60,
            ErrorKey::UserAssignToNotMaxLevelTask => 61,
            ErrorKey::UserAssignSameUserAssignExists => 62,
            ErrorKey::CommentIdInvalid => 63,
            ErrorKey::CommentIdMustBeNone => 64,
            ErrorKey::CommentCreateFailed => 65,
            ErrorKey::CommentGetByIdFailed => 66,
            ErrorKey::CommentGetByTaskIdFailed => 67,
            ErrorKey::CommentGetByUserIdFailed => 68,
            ErrorKey::CommentGetByUserIdAndTaskIdFailed => 69,
            ErrorKey::CommentGetAllFailed => 70,
            ErrorKey::CommentUpdateFailed => 71,
            ErrorKey::CommentDeleteFailed => 72,
            ErrorKey::CommentDeleteFailedByIdNotFound => 73,
            ErrorKey::CommentUserIdInvalid => 74,
            ErrorKey::CommentTaskIdInvalid => 75,
            ErrorKey::CommentIdNotFound => 76,
            ErrorKey::CommentUserIdNotFound => 77,
            ErrorKey::CommentTaskIdNotFound => 78,
            ErrorKey::CommentContentEmpty => 79,
            ErrorKey::CommentContentTooLong => 80,
            ErrorKey::CommentToNotMaxLevelTask => 81,
            ErrorKey::CommentGetByIdNotFound => 82,
            ErrorKey::CommentGetPaginationNotFound => 83,
            ErrorKey::CommentGetCountFailed => 84,
            ErrorKey::CommentHandlerGetCommentInvalidPage => 85,
            ErrorKey::CommentHandlerGetCommentInvalidTarget => 86,
            ErrorKey::CommentHandlerGetCommentNoIdSpecified => 87,
            ErrorKey::CommentHandlerGetCommentNoTaskIdSpecified => 88,
            ErrorKey::CommentHandlerGetCommentNoUserIdSpecified => 89,
            ErrorKey::CommentHandlerInvalidJsonPost => 90,
            ErrorKey::CommentHandlerPathAndBodyIdMismatch => 91,
            ErrorKey::CommentHandlerInvalidQuery => 92,
            ErrorKey::CommentHandlerInvalidPath => 93,
            ErrorKey::ProjectIdMustBeNone => 94,
            ErrorKey::ProjectGetByIdNotFound => 95,
            ErrorKey::ProjectGetByNameNotFound => 96,
            ErrorKey::ProjectGetProjectsCountFailed => 97,
            ErrorKey::ProjectHandlerGetProjectsInvalidPage => 98,
            ErrorKey::ProjectHandlerGetProjectsInvalidTarget => 99,
            ErrorKey::ProjectHandlerGetProjectsNoNameSpecified => 100,
            ErrorKey::ProjectHandlerGetProjectsNoIdSpecified => 101,
            ErrorKey::ProjectHandlerPathAndBodyIdMismatch => 102,
            ErrorKey::ProjectHandlerInvalidJsonPost => 103,
            ErrorKey::ProjectHandlerInvalidQuery => 104,
            ErrorKey::ProjectHandlerInvalidPath => 105,
            ErrorKey::NoPageSpecified => 106,
            ErrorKey::NoPageSizeSpecified => 107,
            ErrorKey::InvalidPagination => 108,
            ErrorKey::PageSizeTooLarge => 109,
            ErrorKey::NoDataFoundInPagination => 110,
            ErrorKey::TaskIdMustBeNone => 111,
            ErrorKey::TaskGetCountFailed => 112,
            ErrorKey::TaskGetPaginationNotFound => 113,
            ErrorKey::TaskGetByIdNotFound => 114,
            ErrorKey::TaskHandlerGetTasksInvalidPage => 115,
            ErrorKey::TaskHandlerGetTasksInvalidTarget => 116,
            ErrorKey::TaskHandlerGetTasksNoIdSpecified => 117,
            ErrorKey::TaskHandlerInvalidJsonPost => 118,
            ErrorKey::TaskHandlerPathAndBodyIdMismatch => 119,
            ErrorKey::TaskUserGetAllFailed => 120,
            ErrorKey::TaskUserGetByFilterFailed => 121,
            ErrorKey::TaskUserGetPaginationNotFound => 122,
            ErrorKey::UserIdMustBeNone => 123,
            ErrorKey::UserGetUsersCountFailed => 124,
            ErrorKey::UserGetUsersPagenationNotFound => 125,
            ErrorKey::UserAssignIdMustBeNone => 126,
            ErrorKey::UserAssignGetByIdNotFound => 127,
            ErrorKey::UserAssignGetPaginationNotFound => 128,
            ErrorKey::UserAssignGetByUserIdAndTaskIdNotFound => 129,
            ErrorKey::UserAssignGetUserAssignsCountFailed => 130,
            ErrorKey::UserAssignIdInvalid => 131,
            ErrorKey::UserAssignHandlerGetUserAssignsInvalidPage => 132,
            ErrorKey::UserAssignHandlerGetUserAssignsInvalidTarget => 133,
            ErrorKey::UserAssignHandlerGetUserAssignsNoIdSpecified => 134,
            ErrorKey::UserAssignHandlerGetUserAssignsNoUserIdSpecified => 135,
            ErrorKey::UserAssignHandlerGetUserAssignsNoTaskIdSpecified => 136,
            ErrorKey::UserAssignHandlerInvalidJsonPost => 137,
            ErrorKey::UserAssignHandlerPathAndBodyIdMismatch => 138,
            ErrorKey::UserAssignHandlerInvalidQuery => 139,
            ErrorKey::UserAssignHandlerInvalidPath => 140,
            ErrorKey::UserHandlerGetUsersInvalidPage => 141,
            ErrorKey::UserGetByIdNotFound => 142,
            ErrorKey::UserGetByNameNotFound => 143,
            ErrorKey::UserHandlerGetUsersInvalidTarget => 144,
            ErrorKey::UserHandlerGetUsersNoNameSpecified => 145,
            ErrorKey::UserHandlerGetUsersNoIdSpecified => 146,
            ErrorKey::UserHandlerPathAndBodyIdMismatch => 147,
            ErrorKey::UserHandlerInvalidJsonPost => 148,
            ErrorKey::TaskHandlerInvalidPath => 149,
            ErrorKey::TaskHandlerInvalidQuery => 150,
            ErrorKey::UserHandlerInvalidPath => 151,
            ErrorKey::UserHandlerInvalidQuery => 152,
        }
    }
}


/// The texts of one message: English and Japanese.
pub struct LangMessages {
    pub en: &'static str,
    pub jp: &'static str,
}

/// Messages by error key; each key that it holds has a text in each language.
pub struct MessageTable {
    entries: HashMap<u64, LangMessages>,
}

impl View for MessageTable {
    type V = Map<ErrorKey, (Seq<char>, Seq<char>)>;

    closed spec fn view(&self) -> Map<ErrorKey, (Seq<char>, Seq<char>)> {
        Map::new(
            |k: ErrorKey| self.entries@.contains_key(k.code()),
            |k: ErrorKey| (self.entries@[k.code()].en@, self.entries@[k.code()].jp@),
        )
    }
}

impl MessageTable {
    /// An empty table.
    pub fn new() -> (t: MessageTable)
        ensures
            t@ == Map::<ErrorKey, (Seq<char>, Seq<char>)>::empty(),
    {
        let t = MessageTable { entries: HashMap::new() };
        assert(t@ =~= Map::<ErrorKey, (Seq<char>, Seq<char>)>::empty());
        t
    }

    /// Sets the messages of `key`.
    pub fn insert(&mut self, key: ErrorKey, en: &'static str, jp: &'static str)
        ensures
            final(self)@ == old(self)@.insert(key, (en@, jp@)),
    {
        let code = key.to_code();
        self.entries.insert(code, LangMessages { en, jp });
        assert forall|k: ErrorKey| k.code() == code implies k == key by {
            k.lemma_code_injective(key);
        }
        assert(self@ =~= old(self)@.insert(key, (en@, jp@)));
    }

    /// The messages of `key`, if the table holds any.
    pub fn get(&self, key: ErrorKey) -> (r: Option<&LangMessages>)
        ensures
            match r {
                Some(m) => self@.contains_key(key) && self@[key] == (m.en@, m.jp@),
                None => !self@.contains_key(key),
            },
    {
        let code = key.to_code();
        self.entries.get(&code)
    }
}

/// The message of `key` in language `lang`: Japanese for `jp`, English
/// otherwise, and `Unknown error` for a key that the table lacks.
pub open spec fn message_text(
    table: Map<ErrorKey, (Seq<char>, Seq<char>)>,
    key: ErrorKey,
    lang: Seq<char>,
) -> Seq<char> {
    if table.contains_key(key) {
        if lang == "jp"@ {
            table[key].1
        } else {
            table[key].0
        }
    } else {
        "Unknown error"@
    }
}

/// Looks up the message of `key` in language `lang`, falling back to English
/// and then to `Unknown error`.
pub fn lookup_message(table: &MessageTable, key: ErrorKey, lang: &str) -> (r: &'static str)
    ensures
        r@ == message_text(table@, key, lang@),
{
    match table.get(key) {
        Some(m) => {
            if str_eq(lang, "jp") {
                m.jp
            } else {
                m.en
            }
        },
        None => "Unknown error",
    }
}

/// Every message of the service, as the message definitions add them.
pub open spec fn error_messages() -> Map<ErrorKey, (Seq<char>, Seq<char>)> {
    Map::empty()
        .union_prefer_right(user_error_messages())
        .union_prefer_right(project_error_messages())
        .union_prefer_right(task_error_messages())
        .union_prefer_right(user_assign_error_messages())
        .union_prefer_right(comment_error_messages())
        .union_prefer_right(repository_error_messages())
        .union_prefer_right(task_user_error_messages())
        .union_prefer_right(user_handler_error_messages())
        .union_prefer_right(project_handler_error_messages())
        .union_prefer_right(task_handler_error_messages())
        .union_prefer_right(user_assign_handler_error_messages())
        .union_prefer_right(comment_handler_error_messages())
}

/// The message definitions, in the order that they are added.
pub open spec fn message_definitions() -> Seq<Map<ErrorKey, (Seq<char>, Seq<char>)>> {
    seq![
        user_error_messages(),
        project_error_messages(),
        task_error_messages(),
        user_assign_error_messages(),
        comment_error_messages(),
        repository_error_messages(),
        task_user_error_messages(),
        user_handler_error_messages(),
        project_handler_error_messages(),
        task_handler_error_messages(),
        user_assign_handler_error_messages(),
        comment_handler_error_messages(),
    ]
}

/// No key has a message in two definitions, so the table does not depend on
/// the order in which the definitions are added.
pub proof fn lemma_message_definitions_disjoint(i: int, j: int, key: ErrorKey)
    requires
        0 <= i < j < message_definitions().len(),
    ensures
        !(message_definitions()[i].contains_key(key) && message_definitions()[j].contains_key(
            key,
        )),
{
}

/// Builds the table of every message of the service.
pub fn build_error_messages() -> (t: MessageTable)
    ensures
        t@ == error_messages(),
{
    let mut t = MessageTable::new();
    add_user_error_messages(&mut t);
    add_project_error_messages(&mut t);
    add_task_error_messages(&mut t);
    add_user_assign_error_messages(&mut t);
    add_comment_error_messages(&mut t);
    add_repository_error_messages(&mut t);
    add_task_user_error_messages(&mut t);
    add_user_handler_error_messages(&mut t);
    add_project_handler_error_messages(&mut t);
    add_task_handler_error_messages(&mut t);
    add_user_assign_handler_error_messages(&mut t);
    add_comment_handler_error_messages(&mut t);
    t
}

/// The language that messages are given in.
pub open spec fn lang() -> Seq<char> {
    "en"@
}

/// The language that messages are given in.
pub fn get_lang() -> (r: &'static str)
    ensures
        r@ == lang(),
{
    "en"
}

/// The text of an error: `[<key name>] <message>: (<error info>)`.
pub open spec fn error_text(key: ErrorKey, error_info: Seq<char>) -> Seq<char> {
    "["@ + key.name() + "] "@ + message_text(error_messages(), key, lang()) + ": ("@ + error_info
        + ")"@
}

/// Formats the message of `key`, with `error_info` appended in parentheses.
pub fn get_error_message(key: ErrorKey, error_info: String) -> (r: String)
    ensures
        r@ == error_text(key, error_info@),
{
    let table = build_error_messages();
    let lang = get_lang();
    let msg = lookup_message(&table, key, lang);
    let mut r = String::from_str("[");
    r.append(key.as_str());
    r.append("] ");
    r.append(msg);
    r.append(": (");
    r.append(error_info.as_str());
    r.append(")");
    r
}

} // verus!
