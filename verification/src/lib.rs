//! Protocol, device and hub logic for LEGO Powered UP hubs.

pub mod buffer;
pub mod device;
pub mod error;
pub mod protocol;
pub mod text;
pub mod hub;
pub mod scanner;
