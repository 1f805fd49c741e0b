//! The wire protocol: messages, their encoding, and the transport rules.

pub mod client;
pub mod codec;
pub mod error;
pub mod id;
pub mod json;
pub mod message;
pub mod response_handler;
pub mod transport;

pub use client::{Client, ClientState};
pub use error::ProtocolError;
pub use id::MessageId;
pub use message::{Message, MessageType};
pub use response_handler::handle_response;
pub use transport::Transport;
