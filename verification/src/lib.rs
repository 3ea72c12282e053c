//! Modal keyboard control for macOS: the decision logic of the ovim app.

pub mod text;
pub mod keycode;
pub mod inject;
pub mod hints;
pub mod double_tap;
pub mod list_mode;
pub mod scroll_mode;
pub mod click_mode;
pub mod browser;
pub mod config;
pub mod indicator;
pub mod launcher;
pub mod ipc;
pub mod commands;
pub mod dispatch;
pub mod capture;
pub mod element_query;
pub mod ax;
