//! Downloading the game: whole sessions over all packs, and single pack files.

pub mod manager;
pub mod worker;
