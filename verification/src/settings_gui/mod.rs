//! The settings panel's data: the context-menu layout and the window state.

pub mod config;
pub mod layout;
