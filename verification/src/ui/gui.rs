//! What a window shows, and how events change it.
//!
//! Drawing is the caller's work. This module keeps the state that is drawn,
//! the inputs, the connection's state, the status line and the history, and
//! says how each event changes it.

use crate::clock::Timestamp;
use crate::ui::events::AppEvent;
use crate::ui::history::{history_after, record_connection, views};
use crate::ui::models::{AppState, ConnectionEntry};
use vstd::prelude::*;
use vstd::string::*;

verus! {

/// The state behind the window.
#[derive(Debug)]
pub struct RcpClientApp {
    /// The server address as typed.
    pub server_address: String,
    /// The server port as typed.
    pub server_port: String,
    /// The name of the authentication method chosen.
    pub auth_method: String,
    /// The user name as typed.
    pub username: String,
    /// The connection's state.
    pub app_state: AppState,
    /// The status line.
    pub status_message: String,
    /// The history of connections.
    pub connection_history: Vec<ConnectionEntry>,
}

/// How an attempt to connect ended, if the event says so.
pub open spec fn attempt_outcome(event: AppEvent) -> Option<bool> {
    match event {
        AppEvent::ConnectionSucceeded => Some(true),
        AppEvent::ConnectionFailed(_) => Some(false),
        _ => None,
    }
}

/// What an event says of the connection in words, if it says anything; it
/// goes on the status line and, but for the last two, into the connection's
/// state.
pub open spec fn status_text(event: AppEvent) -> Option<Seq<char>> {
    match event {
        AppEvent::Connect => Some("Connecting..."@),
        AppEvent::Disconnect => Some("Disconnected"@),
        AppEvent::ConnectionSucceeded => Some("Connected"@),
        AppEvent::ConnectionFailed(reason) => Some("Failed: "@ + reason@),
        AppEvent::DisconnectedConfirmed => Some("Disconnected"@),
        AppEvent::SaveConfig => Some("Configuration save requested."@),
        AppEvent::StatusUpdate(message) => Some(message@),
        _ => None,
    }
}

/// Whether an event is about the connection, and so changes its state.
pub open spec fn concerns_connection(event: AppEvent) -> bool {
    event is Connect || event is Disconnect || event is ConnectionSucceeded
        || event is ConnectionFailed || event is DisconnectedConfirmed
}

impl RcpClientApp {
    /// Takes note of an event that happened at the time `now`, and says
    /// whether the history changed and must be saved.
    ///
    /// An event about the connection sets the connection's state: connected
    /// only after an attempt succeeded, connecting only after one was
    /// started. The time of connection is set when an attempt succeeds and
    /// cleared when the disconnection is confirmed. The outcome of an
    /// attempt is written into the history, for the server and user typed
    /// in. An event that says something in words changes the status line.
    /// Every other event changes nothing.
    pub fn handle_event_at(&mut self, event: AppEvent, now: Timestamp) -> (history_changed: bool)
        ensures
            history_changed == attempt_outcome(event) is Some,
            final(self).server_address == old(self).server_address,
            final(self).server_port == old(self).server_port,
            final(self).auth_method == old(self).auth_method,
            final(self).username == old(self).username,
            final(self).app_state.password == old(self).app_state.password,
            final(self).app_state.show_password == old(self).app_state.show_password,
            final(self).app_state.last_validated_address == old(
                self,
            ).app_state.last_validated_address,
            final(self).status_message@ == match status_text(event) {
                Some(text) => text,
                None => old(self).status_message@,
            },
            final(self).app_state.connection_status@ == if concerns_connection(event) {
                status_text(event).unwrap()
            } else {
                old(self).app_state.connection_status@
            },
            final(self).app_state.is_connected == if concerns_connection(event) {
                event is ConnectionSucceeded
            } else {
                old(self).app_state.is_connected
            },
            final(self).app_state.connecting == if concerns_connection(event) {
                event is Connect
            } else {
                old(self).app_state.connecting
            },
            final(self).app_state.connection_time == match event {
                AppEvent::ConnectionSucceeded => Some(now),
                AppEvent::DisconnectedConfirmed => None,
                _ => old(self).app_state.connection_time,
            },
            views(final(self).connection_history@) == match attempt_outcome(event) {
                Some(successful) => history_after(
                    views(old(self).connection_history@),
                    old(self).server_address@,
                    old(self).server_port@,
                    Some(old(self).username@),
                    old(self).auth_method@,
                    successful,
                    now,
                ),
                None => views(old(self).connection_history@),
            },
    {
        match event {
            AppEvent::Connect => {
                self.app_state.connecting = true;
                self.app_state.is_connected = false;
                self.app_state.connection_status = String::from_str("Connecting...");
                self.status_message = String::from_str("Connecting...");
                false
            },
            AppEvent::Disconnect => {
                self.app_state.connecting = false;
                self.app_state.is_connected = false;
                self.app_state.connection_status = String::from_str("Disconnected");
                self.status_message = String::from_str("Disconnected");
                false
            },
            AppEvent::ConnectionSucceeded => {
                self.app_state.connecting = false;
                self.app_state.set_connected_at(true, now);
                self.status_message = String::from_str("Connected");
                record_connection(
                    &mut self.connection_history,
                    self.server_address.as_str(),
                    self.server_port.as_str(),
                    Some(self.username.as_str()),
                    self.auth_method.as_str(),
                    true,
                    now,
                );
                true
            },
            AppEvent::ConnectionFailed(reason) => {
                self.app_state.is_connected = false;
                self.app_state.connecting = false;
                self.app_state.connection_status = String::from_str("Failed: ").concat(
                    reason.as_str(),
                );
                self.status_message = String::from_str("Failed: ").concat(reason.as_str());
                record_connection(
                    &mut self.connection_history,
                    self.server_address.as_str(),
                    self.server_port.as_str(),
                    Some(self.username.as_str()),
                    self.auth_method.as_str(),
                    false,
                    now,
                );
                true
            },
            AppEvent::DisconnectedConfirmed => {
                self.app_state.connecting = false;
                self.app_state.set_connected_at(false, now);
                self.status_message = String::from_str("Disconnected");
                false
            },
            AppEvent::SaveConfig => {
                self.status_message = String::from_str("Configuration save requested.");
                false
            },
            AppEvent::StatusUpdate(message) => {
                self.status_message = message;
                false
            },
            _ => false,
        }
    }

    /// Takes note of an event that happens now, as
    /// [`RcpClientApp::handle_event_at`] does for the current time.
    pub fn handle_event(&mut self, event: AppEvent) -> (history_changed: bool)
        ensures
            history_changed == attempt_outcome(event) is Some,
            final(self).server_address == old(self).server_address,
            final(self).server_port == old(self).server_port,
            final(self).auth_method == old(self).auth_method,
            final(self).username == old(self).username,
            final(self).status_message@ == match status_text(event) {
                Some(text) => text,
                None => old(self).status_message@,
            },
            final(self).app_state.is_connected == if concerns_connection(event) {
                event is ConnectionSucceeded
            } else {
                old(self).app_state.is_connected
            },
            final(self).app_state.connecting == if concerns_connection(event) {
                event is Connect
            } else {
                old(self).app_state.connecting
            },
    {
        self.handle_event_at(event, Timestamp::now())
    }
}

} // verus!
