//! Randomised hardware addresses for a network connection, and the record of
//! which client label was given which address.
//!
//! The library decides; a driver performs. Everything that touches the outside
//! world (running a command, sleeping, reading a line, the record file) is
//! described here as a request, and its result comes back as an event.

pub mod address;
pub mod announce;
pub mod command;
pub mod entropy;
pub mod generator;
pub mod reconfigure;
pub mod session;
pub mod store;
pub mod text;
