//! Session lifecycle and configuration rules for a game-server manager.

pub mod config;
pub mod config_defs;
pub mod deployment;
pub mod error;
pub mod executables;
pub mod lifecycle;
pub mod names;
pub mod platforms;
pub mod rcon;
pub mod repo;
pub mod server;
pub mod session;
pub mod settings;
pub mod template;
pub mod text;
pub mod tmux;
pub mod zellij;
