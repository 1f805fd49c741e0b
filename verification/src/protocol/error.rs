//! Failures of the protocol layer.

use vstd::prelude::*;
use vstd::string::*;

verus! {

/// What can go wrong while exchanging messages.
#[derive(Debug, Clone, PartialEq, Eq)]
pub enum ProtocolError {
    /// A message body could not be written or read as a document.
    MalformedPayload(String),
    /// The connection failed.
    Transport(String),
    /// The server rejected the credentials.
    AuthenticationFailed(String),
    /// The server reported a failure.
    ServerError(String),
    /// The queue to or from the transport is closed.
    ChannelClosed,
    /// No message arrived in time.
    Timeout,
    /// Anything else.
    Other(String),
}

/// The mathematical reading of a [`ProtocolError`].
pub enum ProtocolErrorView {
    MalformedPayload(Seq<char>),
    Transport(Seq<char>),
    AuthenticationFailed(Seq<char>),
    ServerError(Seq<char>),
    ChannelClosed,
    Timeout,
    Other(Seq<char>),
}

impl ProtocolErrorView {
    /// The text shown for the error.
    pub open spec fn message(self) -> Seq<char> {
        match self {
            ProtocolErrorView::MalformedPayload(detail) => "Malformed message payload: "@ + detail,
            ProtocolErrorView::Transport(detail) => "Transport error: "@ + detail,
            ProtocolErrorView::AuthenticationFailed(detail) => "Authentication failed: "@ + detail,
            ProtocolErrorView::ServerError(detail) => "Server error: "@ + detail,
            ProtocolErrorView::ChannelClosed => "Channel closed"@,
            ProtocolErrorView::Timeout => "Operation timed out"@,
            ProtocolErrorView::Other(detail) => "Protocol error: "@ + detail,
        }
    }
}

impl View for ProtocolError {
    type V = ProtocolErrorView;

    open spec fn view(&self) -> ProtocolErrorView {
        match self {
            ProtocolError::MalformedPayload(detail) => ProtocolErrorView::MalformedPayload(detail@),
            ProtocolError::Transport(detail) => ProtocolErrorView::Transport(detail@),
            ProtocolError::AuthenticationFailed(detail) => ProtocolErrorView::AuthenticationFailed(
                detail@,
            ),
            ProtocolError::ServerError(detail) => ProtocolErrorView::ServerError(detail@),
            ProtocolError::ChannelClosed => ProtocolErrorView::ChannelClosed,
            ProtocolError::Timeout => ProtocolErrorView::Timeout,
            ProtocolError::Other(detail) => ProtocolErrorView::Other(detail@),
        }
    }
}

impl ProtocolError {
    /// The text shown for the error.
    pub fn to_string(&self) -> (r: String)
        ensures
            r@ == self@.message(),
    {
        match self {
            ProtocolError::MalformedPayload(detail) => String::from_str(
                "Malformed message payload: ",
            ).concat(detail.as_str()),
            ProtocolError::Transport(detail) => String::from_str("Transport error: ").concat(
                detail.as_str(),
            ),
            ProtocolError::AuthenticationFailed(detail) => String::from_str(
                "Authentication failed: ",
            ).concat(detail.as_str()),
            ProtocolError::ServerError(detail) => String::from_str("Server error: ").concat(
                detail.as_str(),
            ),
            ProtocolError::ChannelClosed => String::from_str("Channel closed"),
            ProtocolError::Timeout => String::from_str("Operation timed out"),
            ProtocolError::Other(detail) => String::from_str("Protocol error: ").concat(
                detail.as_str(),
            ),
        }
    }
}

} // verus!
