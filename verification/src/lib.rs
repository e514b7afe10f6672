//! Verified core of PKGBUILD Manager: the text formats it reads (.SRCINFO,
//! PKGBUILD, git output), the decisions its actions take, and the menu model
//! of its settings panel.

pub mod text;
pub mod format;
pub mod actions;
pub mod i18n;
pub mod cli;
pub mod settings_gui;
pub mod aur_push_gui;
pub mod host;
pub mod gui;
pub mod clean_gui;
pub mod win_state;
pub mod setup;
