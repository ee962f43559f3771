//! Verified core of a desktop music player: library rules, playlist
//! ordering, tag fallbacks, cover naming, scan progress and desktop
//! integration decisions. Storage, file system and windowing stay outside.

pub mod models;
pub mod paths;
pub mod text;
pub mod playlist;
pub mod search;
pub mod scanner;
pub mod covers;
pub mod desktop;
pub mod db;
