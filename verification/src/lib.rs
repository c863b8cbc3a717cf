//! A manager for SSH keys kept under one home directory.

pub mod text;
pub mod paths;
pub mod errors;
pub mod keys;
pub mod config;
pub mod listing;
pub mod cli;
pub mod laws;
