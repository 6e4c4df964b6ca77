//! Window, settings, web-request and player logic of the Stremio shell, with its contracts.

pub mod constants;
pub mod geometry;
pub mod window_style;
pub mod window_settings;
pub mod text;
pub mod web_requests;
pub mod updater;
pub mod player;
