pub mod comment;
pub mod comment_handler;
pub mod project;
pub mod project_handler;
pub mod repository;
pub mod task;
pub mod task_handler;
pub mod task_user;
pub mod user;
pub mod user_assign;
pub mod user_assign_handler;
pub mod user_handler;

pub use comment::{add_comment_error_messages, comment_error_messages};
pub use comment_handler::{add_comment_handler_error_messages, comment_handler_error_messages};
pub use project::{add_project_error_messages, project_error_messages};
pub use project_handler::{add_project_handler_error_messages, project_handler_error_messages};
pub use repository::{add_repository_error_messages, repository_error_messages};
pub use task::{add_task_error_messages, task_error_messages};
pub use task_handler::{add_task_handler_error_messages, task_handler_error_messages};
pub use task_user::{add_task_user_error_messages, task_user_error_messages};
pub use user::{add_user_error_messages, user_error_messages};
pub use user_assign::{add_user_assign_error_messages, user_assign_error_messages};
pub use user_assign_handler::{add_user_assign_handler_error_messages, user_assign_handler_error_messages};
pub use user_handler::{add_user_handler_error_messages, user_handler_error_messages};
