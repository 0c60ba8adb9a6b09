pub mod text;
pub mod client;
pub mod errors;
pub mod enums;
pub mod handlers;
pub mod models;
pub mod utils;
