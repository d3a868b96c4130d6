pub mod config;
pub mod counter;
pub mod package;
