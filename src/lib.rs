//! Declarative symbolic-link management: resolving configured link groups
//! into concrete links, and deciding, step by step, how each link is applied.

pub mod config;
pub mod home_dir;
pub mod linking;
pub mod session;
pub mod laws;
pub mod help;
