//! The operation workflow engine.

pub mod actor;
pub mod builder;
pub mod config;
pub mod messages;
pub mod states;
pub mod topic;
