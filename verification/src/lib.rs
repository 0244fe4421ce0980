//! Wallpaper collection management: wallpaper discovery, the derived
//! thumbnail and rescaled caches, picker and player glue.

pub mod command;
pub mod config;
pub mod course;
pub mod ffmpeg;
pub mod json;
pub mod laws;
pub mod model;
pub mod mpv;
pub mod number;
pub mod path;
pub mod policy;
pub mod reconcile;
pub mod report;
pub mod scan;
pub mod select;
pub mod selection;
pub mod sxiv;
pub mod text;
pub mod utils;
