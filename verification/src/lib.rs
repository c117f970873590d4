//! The decisions a message broker takes when a producer sends a message: which requests are
//! refused and how the refusal is worded, what is handed to the message store, and what the
//! producer is answered once the store has replied.

pub mod address;
pub mod command;
pub mod config;
pub mod dispatcher;
pub mod function_laws;
pub mod laws;
pub mod message;
pub mod processor;
pub mod properties;
pub mod property_laws;
pub mod run_laws;
pub mod session;
pub mod step_laws;
pub mod store;
pub mod text;
pub mod topic;
