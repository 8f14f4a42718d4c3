//! Region capture, metadata stripping and settings logic for a privacy-clean
//! screenshot tool.

pub mod capture;
pub mod config;
pub mod drawing;
pub mod exif;
pub mod geometry;
pub mod input;
pub mod jpeg;
pub mod metadata;
pub mod names;
pub mod overlay;
pub mod pixels;
pub mod saves;
pub mod start_menu;
pub mod text;
