//! Wallpaper switching and terminal colour scheme helpers.

pub mod sources;
pub mod text;
pub mod cli;
pub mod config;
pub mod download;
pub mod resolution;
pub mod wal;
pub mod wallpaper;
