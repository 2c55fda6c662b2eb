//! What the operations of the application are for, each as a law over all inputs
//! of the function that does it.

pub mod androids;
pub mod apps;
pub mod configs;
pub mod desktops;
pub mod devices;
pub mod fields;
pub mod files;
pub mod links;
pub mod maps;
pub mod pages;
pub mod points;
pub mod radios;
pub mod savings;
pub mod texts;
pub mod tracks;
