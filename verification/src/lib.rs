pub mod config;
pub mod protocol;
pub mod server;
