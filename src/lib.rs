//! Colourises text line by line according to a set of regular-expression
//! rules read from a configuration file.

pub mod text;
pub mod colour;
pub mod config;
pub mod matcher;
pub mod colorize;
