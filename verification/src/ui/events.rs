//! The events of a graphical interface.

use vstd::prelude::*;

verus! {

/// What the interface and the connection tell each other.
#[derive(Debug, Clone, PartialEq, Eq)]
pub enum AppEvent {
    /// Connect to the server.
    Connect,
    /// Disconnect from the server.
    Disconnect,
    /// The connection was made.
    ConnectionSucceeded,
    /// The connection could not be made.
    ConnectionFailed(String),
    /// Authentication succeeded.
    AuthenticationSucceeded,
    /// Authentication failed.
    AuthenticationFailed(String),
    /// The configuration was saved.
    ConfigSaved,
    /// The configuration could not be saved.
    ConfigSaveFailed(String),
    /// The connection is gone.
    DisconnectedConfirmed,
    /// Show this status.
    UpdateStatus(String),
    /// The connection stands, or does not.
    UpdateConnectionState(bool),
    /// A connection is being made, or is not.
    SetConnecting(bool),
    /// Record a connection: address, port, user, method, success.
    UpdateConnectionHistory(String, String, Option<String>, String, bool),
    /// Keep the credentials.
    SaveCredentials,
    /// Forget the credentials.
    ClearCredentials,
    /// Validate the named input.
    ValidateInput(String),
    /// Save the configuration.
    SaveConfig,
    /// Show this message as the status.
    StatusUpdate(String),
}

} // verus!
