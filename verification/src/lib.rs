//! Verified core of the Codex time-zone launcher.
pub mod text;
pub mod order;
pub mod timezone;
pub mod config;
pub mod encoding;
pub mod process;
pub mod discovery;
pub mod store_launch;
pub mod store_activation;
pub mod workflow;
pub mod geo;
pub mod single_instance;
pub mod ui_layout;
pub mod ui_controls;
pub mod ui_app;
pub mod ui;
