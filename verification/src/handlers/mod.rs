pub mod comment;
pub mod pagination;
pub mod project;
pub mod request;
pub mod task;
pub mod user;
pub mod user_assign;
pub mod utils;
