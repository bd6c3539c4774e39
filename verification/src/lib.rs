//! Verified core of a game launcher: pack-download sessions, per-file download
//! workers, download control flags, and the decisions behind launcher commands.

pub mod commands;
pub mod debug_info;
pub mod download;
pub mod error;
pub mod hashing;
pub mod paths;
pub mod play_session;
pub mod protons;
pub mod text;
pub mod types;
pub mod update;
