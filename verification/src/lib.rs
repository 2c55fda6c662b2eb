//! Core of a GPS tracking application.

pub mod app;
pub mod ble;
pub mod compass;
pub mod config;
pub mod document;
pub mod durations;
pub mod gps;
pub mod insets;
pub mod laws;
pub mod link;
pub mod names;
pub mod points;
pub mod radio;
pub mod reals;
pub mod settings_file;
pub mod settings_laws;
pub mod settings_reading;
pub mod settings_text;
pub mod text;
pub mod tiles;
