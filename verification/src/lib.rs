//! Decision logic of a daemon that relays UPS status from a NUT server over MQTT
//! and powers machines off when the configured plan says so.

pub mod percent;
pub mod text;
pub mod config;
pub mod error;
pub mod nut;
pub mod executor;
pub mod mqtt;
pub mod plan;
pub mod publisher;
pub mod subscriber;
