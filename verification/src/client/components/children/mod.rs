pub mod command_pane;
pub mod header_panes;
