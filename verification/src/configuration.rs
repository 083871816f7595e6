//! A plugin of the engine: the update of a configuration file.

pub mod actor;
pub mod messages;
