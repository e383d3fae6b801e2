//! Build-completion broadcast for a live-reload server.
//!
//! A build finishes, the bus advances by one generation, and every connection
//! pump that subscribed earlier forwards one reload notification to its client.
//! The library holds the decisions; its callers do the waiting and the I/O:
//! a driver performs the action a state machine asks for and reports back
//! how it went.

pub mod bus;
pub mod outcome;
pub mod pump;
pub mod startup;
pub mod text;
pub mod watcher;
pub mod config;
pub mod client;
