//! Transactional file indexing over a full-text engine and a key-value store.

pub mod cli;
pub mod command;
pub mod detect;
pub mod engine;
pub mod error;
pub mod fragments;
pub mod model;
pub mod query;
pub mod search;
pub mod session;
pub mod shell;
pub mod state;
pub mod store;
