//! Verified core of a keyboard-first terminal SQLite viewer: SQL text
//! construction, filter translation, grid navigation, configuration
//! resolution, the inline cell editor, and the interface's state machine
//! with the rules it is driven by.

pub mod text;
pub mod value;
pub mod query;
pub mod filter;
pub mod grid;
pub mod symbols;
pub mod theme;
pub mod config;
pub mod app_dirs;
pub mod db;
pub mod cli;
pub mod app;
pub mod keys;
pub mod mouse;
pub mod session;
pub mod edit_keys;
pub mod text_edit;
pub mod sorted;
