//! Client side of the remote-control protocol: message framing, the
//! transport and session rules, and authentication.

pub mod auth;
pub mod clock;
pub mod config;
pub mod protocol;
pub mod resources;
pub mod ui;
