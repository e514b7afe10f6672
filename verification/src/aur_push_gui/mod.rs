//! The push and release windows: what they detect about a repository, the
//! steps their workers run, and the progress they show.

pub mod repo;
pub mod worker;
pub mod labels;
pub mod panel;
