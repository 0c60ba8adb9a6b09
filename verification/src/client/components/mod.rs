pub mod children;
pub mod pane;
