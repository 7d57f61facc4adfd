pub mod app;
pub mod commands;
pub mod config;
pub mod error;
pub mod modules;
pub mod state;
pub mod text;
