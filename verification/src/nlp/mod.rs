pub mod config;
pub mod endpoint;
