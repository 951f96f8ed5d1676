//! The decisions of each command.

pub mod dependencies;
pub mod git;
pub mod init;
pub mod laws;
