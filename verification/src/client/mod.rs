pub mod api;
pub mod app;
pub mod command;
pub mod command_map;
pub mod components;
pub mod event;
pub mod key_map;
pub mod repository;
pub mod ui;
