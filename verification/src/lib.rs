//! Verified core of the Effect dynamic wallpaper manager.
pub mod assets;
pub mod config;
pub mod controller;
pub mod desktop;
pub mod host;
pub mod paths;
pub mod shell;
pub mod text;
