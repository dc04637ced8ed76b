//! Verified core of a client for the Wan2GP ArtCraft Bridge API and of the
//! desktop service that drives it: request and response types, the rules that
//! classify bridge replies, the settings store, the decisions of the task
//! polling loop and the construction of generation requests.

pub mod text;
pub mod error;
pub mod types;
pub mod client;
pub mod settings;
pub mod commands;
pub mod encoding;
pub mod polling;
pub mod enqueue;
