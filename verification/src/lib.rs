pub mod auth;
pub mod cli;
pub mod client;
pub mod command_laws;
pub mod commands;
pub mod config;
pub mod error;
pub mod json;
pub mod laws;
pub mod operations;
pub mod output;
pub mod text;
