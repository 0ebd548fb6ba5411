//! Forecast selection and rendering for a command-line weather tool.

pub mod args;
pub mod geocoding;
pub mod symbols;
pub mod text;
pub mod time;
pub mod weather;
