//! An interface driven by events, without a window.
//!
//! The application reacts to one event at a time. What it does in reaction,
//! connecting, authenticating, waiting, is the caller's work; this module
//! decides what that work is.

use crate::config::{config_valid, is_config_valid, AuthConfig, ServerConfig};
use crate::protocol::client::{Client, ClientState};
use vstd::prelude::*;
use vstd::string::*;

verus! {

/// How long the connection dialog stays up before connecting again, in
/// milliseconds.
pub const DIALOG_DELAY_MS: u64 = 500;

/// What happens to the application.
#[derive(Debug)]
pub enum AppEvent {
    /// Connect to the server.
    Connect,
    /// The connection was made; this is its session.
    Connected(Client),
    /// The connection could not be made.
    ConnectionFailed(String),
    /// Authentication succeeded.
    AuthenticationSucceeded,
    /// Authentication failed.
    AuthenticationFailed(String),
    /// Ask the user where to connect.
    ShowConnectionDialog,
    /// Ask the user for credentials.
    ShowAuthenticationDialog,
    /// Leave.
    Quit,
}

/// What the application does in reaction to an event.
#[derive(Debug)]
pub enum AppAction {
    /// Nothing.
    Idle,
    /// Connect to the configured server and report how it went.
    Connect,
    /// Authenticate on the session at hand and report how it went.
    Authenticate,
    /// Raise this event.
    Raise(AppEvent),
    /// Wait this many milliseconds, then raise this event.
    RaiseAfter(u64, AppEvent),
    /// Leave the event loop.
    Quit,
}

/// The application: its configuration and, once connected, its session.
#[derive(Debug)]
pub struct EventBasedApp {
    server: ServerConfig,
    auth: AuthConfig,
    client: Option<Client>,
    auto_connect: bool,
}

impl EventBasedApp {
    /// The session, once a connection was made.
    pub closed spec fn session(&self) -> Option<ClientState> {
        match self.client {
            Some(client) => Some(client@),
            None => None,
        }
    }

    /// Whether the configuration says enough to connect without asking.
    pub closed spec fn configured(&self) -> bool {
        config_valid(self.server, self.auth)
    }

    /// Whether the application connects on its own when it starts.
    pub open spec fn connects_at_start(&self) -> bool {
        self.auto_connect() && self.configured()
    }

    /// Whether the application may connect on its own at all.
    pub closed spec fn auto_connect(&self) -> bool {
        self.auto_connect
    }

    /// An application for the given configuration, not yet connected.
    pub fn new(server: ServerConfig, auth: AuthConfig, auto_connect: bool) -> (r: EventBasedApp)
        ensures
            r.session() is None,
            r.auto_connect() == auto_connect,
            r.configured() == config_valid(server, auth),
    {
        EventBasedApp { server, auth, client: None, auto_connect }
    }

    /// Whether the configuration says enough to connect without asking.
    pub fn is_config_valid(&self) -> (r: bool)
        ensures
            r == self.configured(),
    {
        is_config_valid(&self.server, &self.auth)
    }

    /// The event the application starts with: it connects if it may and the
    /// configuration says enough, asks where to connect if it may but the
    /// configuration does not, and otherwise waits for the user.
    pub fn startup(&self) -> (r: Option<AppEvent>)
        ensures
            match r {
                Some(AppEvent::Connect) => self.connects_at_start(),
                Some(AppEvent::ShowConnectionDialog) => self.auto_connect()
                    && !self.connects_at_start(),
                Some(_) => false,
                None => !self.auto_connect(),
            },
    {
        if self.auto_connect && self.is_config_valid() {
            Some(AppEvent::Connect)
        } else if !self.auto_connect {
            None
        } else {
            Some(AppEvent::ShowConnectionDialog)
        }
    }

    /// Reacts to an event.
    ///
    /// A request to connect is carried out. A connection made is kept and
    /// authenticated on. A failed connection brings up the connection
    /// dialog, a failed authentication the authentication dialog. The
    /// connection dialog, which is not implemented, connects again after a
    /// short delay. `Quit` leaves; nothing else does.
    pub fn handle_event(&mut self, event: AppEvent) -> (r: AppAction)
        ensures
            final(self).auto_connect() == old(self).auto_connect(),
            final(self).configured() == old(self).configured(),
            match event {
                AppEvent::Connect => r is Connect && final(self).session() == old(self).session(),
                AppEvent::Connected(client) => r is Authenticate && final(self).session() == Some(
                    client@,
                ),
                AppEvent::ConnectionFailed(_) => r matches AppAction::Raise(
                    AppEvent::ShowConnectionDialog,
                ) && final(self).session() == old(self).session(),
                AppEvent::AuthenticationSucceeded => r is Idle && final(self).session() == old(
                    self,
                ).session(),
                AppEvent::AuthenticationFailed(_) => r matches AppAction::Raise(
                    AppEvent::ShowAuthenticationDialog,
                ) && final(self).session() == old(self).session(),
                AppEvent::ShowConnectionDialog => r matches AppAction::RaiseAfter(
                    delay,
                    AppEvent::Connect,
                ) && delay == DIALOG_DELAY_MS && final(self).session() == old(self).session(),
                AppEvent::ShowAuthenticationDialog => r is Idle && final(self).session() == old(
                    self,
                ).session(),
                AppEvent::Quit => r is Quit && final(self).session() == old(self).session(),
            },
    {
        match event {
            AppEvent::Connect => AppAction::Connect,
            AppEvent::Connected(client) => {
                self.client = Some(client);
                AppAction::Authenticate
            },
            AppEvent::ConnectionFailed(_) => AppAction::Raise(AppEvent::ShowConnectionDialog),
            AppEvent::AuthenticationSucceeded => AppAction::Idle,
            AppEvent::AuthenticationFailed(_) => AppAction::Raise(
                AppEvent::ShowAuthenticationDialog,
            ),
            AppEvent::ShowConnectionDialog => AppAction::RaiseAfter(
                DIALOG_DELAY_MS,
                AppEvent::Connect,
            ),
            AppEvent::ShowAuthenticationDialog => AppAction::Idle,
            AppEvent::Quit => AppAction::Quit,
        }
    }

    /// The event that reports how connecting went: the session of the
    /// connection made, or why none was made.
    pub fn connection_event(outcome: Result<Client, String>) -> (r: AppEvent)
        ensures
            match outcome {
                Ok(client) => r == AppEvent::Connected(client),
                Err(reason) => r == AppEvent::ConnectionFailed(reason),
            },
    {
        match outcome {
            Ok(client) => AppEvent::Connected(client),
            Err(reason) => AppEvent::ConnectionFailed(reason),
        }
    }

    /// The event that reports how an authentication attempt went. Without
    /// a session there was no attempt, which counts as a failure; so does an
    /// attempt that the server rejected, and one that ended in an error,
    /// whose description the event carries.
    pub fn authentication_event(outcome: Option<Result<bool, String>>) -> (r: AppEvent)
        ensures
            match outcome {
                None => r matches AppEvent::AuthenticationFailed(reason) && reason@
                    == "No client connection available"@,
                Some(Ok(true)) => r is AuthenticationSucceeded,
                Some(Ok(false)) => r matches AppEvent::AuthenticationFailed(reason) && reason@
                    == "Authentication rejected"@,
                Some(Err(error)) => r == AppEvent::AuthenticationFailed(error),
            },
    {
        match outcome {
            None => AppEvent::AuthenticationFailed(
                String::from_str("No client connection available"),
            ),
            Some(Ok(true)) => AppEvent::AuthenticationSucceeded,
            Some(Ok(false)) => AppEvent::AuthenticationFailed(
                String::from_str("Authentication rejected"),
            ),
            Some(Err(error)) => AppEvent::AuthenticationFailed(error),
        }
    }

    /// Takes the session back after the caller is done with it.
    pub fn keep_client(&mut self, client: Client)
        ensures
            final(self).session() == Some(client@),
            final(self).auto_connect() == old(self).auto_connect(),
            final(self).configured() == old(self).configured(),
    {
        self.client = Some(client);
    }

    /// Hands the session out, for the caller to authenticate on.
    pub fn take_client(&mut self) -> (r: Option<Client>)
        ensures
            final(self).session() is None,
            final(self).auto_connect() == old(self).auto_connect(),
            final(self).configured() == old(self).configured(),
            match r {
                Some(client) => old(self).session() == Some(client@),
                None => old(self).session() is None,
            },
    {
        self.client.take()
    }
}

} // verus!
