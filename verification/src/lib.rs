//! Scaffolding for audio plugin projects: placeholder rendering, the
//! platform's build dependencies, and the decisions of each command.

pub mod assets;
pub mod commands;
pub mod config;
pub mod effects;
pub mod platform;
pub mod templates;
pub mod text;
