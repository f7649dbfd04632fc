//! Verified core of a terminal tool that renames video files into a media library.
//!
//! The library holds the state of the file explorer, the query state that turns a
//! file name into a movie or episode search, the rules that turn search results into
//! library paths, and the key bindings. Terminal drawing, file system access and the
//! network client live in the application crate around it.

pub mod app;
pub mod config;
pub mod explorer;
pub mod handler;
pub mod messenger;
pub mod patterns;
pub mod query;
pub mod search;
pub mod text;
pub mod tvdb;
pub mod ui;
pub mod utils;
