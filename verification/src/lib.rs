//! Quota reporting for a signed-in Codex account: the decisions and text
//! that the command-line program and the tray shell are built from.

pub mod api;
pub mod auth;
pub mod error;
pub mod logs;
pub mod model;
pub mod report;
pub mod service;
pub mod text;
pub mod tray;
