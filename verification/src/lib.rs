//! Coordination of multi-step operations on a device, such as the update of a
//! configuration or of a firmware, whose state travels in messages.
//!
//! An operation moves through the named states of a workflow. At each state one
//! participant moves it forward: a plugin of the engine, another system, or a
//! script. Nothing is kept in memory between two messages: each message on the
//! topic of an operation is a complete snapshot of its state.
//!
//! - [`operations_sm::topic`] is the grammar of topics and of their patterns.
//! - [`operations_sm::config`] holds the keys of operations, the filters and
//!   the workflows, and maps keys to topics and filters to patterns.
//! - [`operations_sm::states`] is the table of the states of a workflow.
//! - [`operations_sm::messages`] reads and writes the messages, and tells what
//!   the outcome of a script makes of a state.
//! - [`operations_sm::builder`] registers the workflows, and
//!   [`operations_sm::actor`] decides what each message calls for.
//! - [`configuration`] is a plugin: the update of a configuration file.
//! - [`json`] and [`text`] state what is believed of `serde_json` and of `std`.
//!
//! The library decides and computes, and leaves it to its user to receive the
//! messages, to run the scripts and to publish: each decision is a function
//! from the state and an input to what has to be done.

pub mod configuration;
pub mod json;
pub mod operations_sm;
pub mod text;
