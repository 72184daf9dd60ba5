//! Client-side model of the Bankr agent service: request and response
//! shapes, the error taxonomy, and the state machine that turns an
//! asynchronous job into a bounded wait for its terminal status.
pub mod client;
pub mod config;
pub mod display;
pub mod error;
pub mod poll;
pub mod types;
