pub mod db_error;
pub mod handler_errors;
pub mod key_names;
pub mod message_def;
pub mod messages;

pub use db_error::DBAccessError;
pub use handler_errors::HandlerError;
