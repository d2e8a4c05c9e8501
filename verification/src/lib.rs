//! Verified core of a terminal dashboard for watching several GitHub
//! repositories: navigation state, configuration checks, API cache and
//! retry decisions, event handling and text formatting.

pub mod text;
pub mod navigation;
pub mod github;
pub mod config;
pub mod app_state;
pub mod ui;
