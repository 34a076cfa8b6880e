pub mod app;
pub mod client;
pub mod config;
pub mod fifobuffer;
pub mod text;
pub mod tui;
