//! The data that the Syncthing REST interface exchanges.

pub mod config;
pub mod events;
