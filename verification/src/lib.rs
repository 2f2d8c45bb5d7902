//! Alias resolution and command construction for a four-by-four HDMI matrix
//! switch that takes one-line text commands.

pub mod configuration;
pub mod entries;
pub mod error;
pub mod index_map;
pub mod laws;
pub mod ports;
pub mod session;
pub mod switch;
pub mod text;
