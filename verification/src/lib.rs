//! Verified core of a keyboard-driven terminal client for Linkly short links.

pub mod api;
pub mod app;
pub mod browser;
pub mod create_form;
pub mod edit_form;
pub mod import;
pub mod input;
pub mod json;
pub mod laws;
pub mod models;
pub mod qr;
pub mod text;
pub mod ui;
