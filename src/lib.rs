//! Settings model, preset store and command-line builder for a screen-mirroring
//! launcher, with the event dispatcher that a front-end drives.
pub mod text;
pub mod config;
pub mod presets;
pub mod config_status;
pub mod args;
pub mod win_main;
