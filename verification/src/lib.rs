//! Command-line companion for publishing game builds: the rules and decisions
//! of the tool, stated and proved, apart from the I/O that carries them out.

pub mod achievements;
pub mod api_client;
pub mod auth;
pub mod builds;
pub mod config;
pub mod config_cmd;
pub mod dev;
pub mod document;
pub mod file_staging;
pub mod init;
pub mod json;
pub mod rclone;
pub mod stats;
pub mod text;
pub mod updater;
pub mod uploader;
pub mod version_cmd;
