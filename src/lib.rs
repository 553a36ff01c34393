//! An in-process fan-out relay for short chat messages: a bounded broadcast
//! hub with per-subscriber cursors, explicit lag reporting, and a streaming
//! loop that races each subscription against a shutdown signal.
pub mod endpoint;
pub mod hub;
pub mod message;
pub mod stream;
pub mod trace;
