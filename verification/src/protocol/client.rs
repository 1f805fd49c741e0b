//! The session: what a client may do, and when.
//!
//! A session starts connected, authenticates, and ends closed. Every step is
//! taken by an explicit call; nothing here times out or reconnects. The
//! socket and the queues belong to the caller: a call that has something to
//! send returns the message, and the caller reports back how sending went.

use crate::auth::error::AuthError;
use crate::auth::{AuthProvider, Environment};
use crate::protocol::error::{ProtocolError, ProtocolErrorView};
use crate::protocol::message::{auth_payload, Message, MessageType};
use vstd::prelude::*;
use vstd::string::*;

verus! {

/// Where a session stands.
#[derive(Debug, Clone, Copy, PartialEq, Eq, Structural)]
pub enum ClientState {
    /// Connected; no authentication attempted, or none under way.
    Connected,
    /// Credentials are on their way to the server.
    Authenticating,
    /// The last attempt succeeded.
    Authenticated,
    /// The last attempt failed; another may follow.
    AuthFailed,
    /// The session is over.
    Closed,
}

/// What moves a session from one state to the next.
#[derive(Debug, Clone, Copy, PartialEq, Eq, Structural)]
pub enum ClientEvent {
    /// An authentication attempt starts.
    AuthStarted,
    /// The attempt under way succeeded.
    AuthSucceeded,
    /// The attempt under way failed.
    AuthRejected,
    /// The session is closed.
    Closed,
}

impl ClientState {
    /// The state after an event.
    ///
    /// Closing ends any session, and a closed session stays closed. An
    /// attempt may start in any open state. Success and failure count only
    /// while an attempt is under way; otherwise they change nothing.
    pub open spec fn after(self, event: ClientEvent) -> ClientState {
        match (self, event) {
            (ClientState::Closed, _) => ClientState::Closed,
            (_, ClientEvent::Closed) => ClientState::Closed,
            (_, ClientEvent::AuthStarted) => ClientState::Authenticating,
            (ClientState::Authenticating, ClientEvent::AuthSucceeded) => ClientState::Authenticated,
            (ClientState::Authenticating, ClientEvent::AuthRejected) => ClientState::AuthFailed,
            (state, _) => state,
        }
    }

    /// The state after a sequence of events, taken in order.
    pub open spec fn after_all(self, events: Seq<ClientEvent>) -> ClientState
        decreases events.len(),
    {
        if events.len() == 0 {
            self
        } else {
            self.after(events[0]).after_all(events.subrange(1, events.len() as int))
        }
    }

    /// No sequence of events reopens a closed session.
    pub proof fn lemma_closed_is_final(events: Seq<ClientEvent>)
        ensures
            ClientState::Closed.after_all(events) == ClientState::Closed,
        decreases events.len(),
    {
        if events.len() > 0 {
            ClientState::lemma_closed_is_final(events.subrange(1, events.len() as int));
        }
    }

    /// A session is authenticated only through an attempt: the state
    /// `Authenticated` is entered from `Authenticating` and from nowhere
    /// else.
    pub proof fn lemma_authenticated_follows_attempt(state: ClientState, event: ClientEvent)
        requires
            state != ClientState::Authenticated,
            state.after(event) == ClientState::Authenticated,
        ensures
            state == ClientState::Authenticating,
            event == ClientEvent::AuthSucceeded,
    {
    }
}

/// How a connection is to be made.
#[derive(Debug)]
pub struct ConnectionPlan {
    /// Whether the channel will be encrypted.
    pub encrypted: bool,
    /// What the operator must be told before connecting, if anything.
    pub warning: Option<String>,
}

/// Plans a connection, encrypted if asked for and possible.
///
/// No encryption is built in, so the plan is always a plaintext channel; a
/// request for TLS is answered with a warning, never with a channel that is
/// called encrypted.
pub fn plan_connection(use_tls: bool) -> (r: ConnectionPlan)
    ensures
        !r.encrypted,
        use_tls ==> (r.warning matches Some(text) && text@
            == "TLS support not yet implemented, using insecure connection"@),
        !use_tls ==> r.warning is None,
{
    if use_tls {
        ConnectionPlan {
            encrypted: false,
            warning: Some(
                String::from_str("TLS support not yet implemented, using insecure connection"),
            ),
        }
    } else {
        ConnectionPlan { encrypted: false, warning: None }
    }
}

/// One session with a server.
#[derive(Debug)]
pub struct Client {
    state: ClientState,
}

impl View for Client {
    type V = ClientState;

    closed spec fn view(&self) -> ClientState {
        self.state
    }
}

impl Client {
    /// The session of a connection that was just made.
    pub fn new() -> (r: Client)
        ensures
            r@ == ClientState::Connected,
    {
        Client { state: ClientState::Connected }
    }

    /// Where the session stands.
    pub fn state(&self) -> (r: ClientState)
        ensures
            r == self@,
    {
        self.state
    }

    /// Starts an authentication attempt with the given credentials and
    /// returns the message to send. A closed session gives `ChannelClosed`
    /// and stays closed.
    pub fn authenticate(&mut self, username: &str, credentials: &[u8], method: &str) -> (r: Result<
        Message,
        ProtocolError,
    >)
        ensures
            final(self)@ == old(self)@.after(ClientEvent::AuthStarted),
            match r {
                Ok(message) => old(self)@ != ClientState::Closed && message@.message_type
                    == MessageType::Auth && message@.payload == auth_payload(
                    username@,
                    credentials@,
                    method@,
                ),
                Err(error) => old(self)@ == ClientState::Closed && error@
                    == ProtocolErrorView::ChannelClosed,
            },
    {
        match self.state {
            ClientState::Closed => Err(ProtocolError::ChannelClosed),
            _ => {
                self.state = ClientState::Authenticating;
                Ok(Message::auth(username, credentials, method))
            },
        }
    }

    /// Starts an authentication attempt. A closed session gives
    /// `ChannelClosed` and stays closed.
    pub fn begin_authentication(&mut self) -> (r: Result<(), ProtocolError>)
        ensures
            final(self)@ == old(self)@.after(ClientEvent::AuthStarted),
            match r {
                Ok(_) => old(self)@ != ClientState::Closed,
                Err(error) => old(self)@ == ClientState::Closed && error@
                    == ProtocolErrorView::ChannelClosed,
            },
    {
        match self.state {
            ClientState::Closed => Err(ProtocolError::ChannelClosed),
            _ => {
                self.state = ClientState::Authenticating;
                Ok(())
            },
        }
    }

    /// Ends the attempt under way as failed, before anything was sent.
    pub fn authentication_failed(&mut self)
        ensures
            final(self)@ == old(self)@.after(ClientEvent::AuthRejected),
    {
        match self.state {
            ClientState::Authenticating => {
                self.state = ClientState::AuthFailed;
            },
            _ => {},
        }
    }

    /// Ends the attempt under way, given how sending its message went.
    ///
    /// A message that was sent counts as accepted: the server's answer is
    /// not awaited, and the result is `Ok(true)`. A failure to send fails
    /// the attempt with that error. Without an attempt under way nothing
    /// changes; the result is then `ChannelClosed` for a closed session and
    /// `Other` for an open one.
    pub fn authentication_sent(&mut self, sent: Result<(), ProtocolError>) -> (r: Result<
        bool,
        ProtocolError,
    >)
        ensures
            match (old(self)@, sent) {
                (ClientState::Authenticating, Ok(_)) => r == Ok::<bool, ProtocolError>(true)
                    && final(self)@ == ClientState::Authenticated,
                (ClientState::Authenticating, Err(error)) => r == Err::<bool, ProtocolError>(
                    error,
                ) && final(self)@ == ClientState::AuthFailed,
                (ClientState::Closed, _) => r matches Err(error) && error@
                    == ProtocolErrorView::ChannelClosed && final(self)@ == ClientState::Closed,
                (state, _) => r matches Err(error) && error@ == ProtocolErrorView::Other(
                    "No authentication in progress"@,
                ) && final(self)@ == state,
            },
            final(self)@ == old(self)@.after(
                if sent is Ok {
                    ClientEvent::AuthSucceeded
                } else {
                    ClientEvent::AuthRejected
                },
            ),
    {
        match self.state {
            ClientState::Authenticating => match sent {
                Ok(_) => {
                    self.state = ClientState::Authenticated;
                    Ok(true)
                },
                Err(error) => {
                    self.state = ClientState::AuthFailed;
                    Err(error)
                },
            },
            ClientState::Closed => Err(ProtocolError::ChannelClosed),
            _ => Err(ProtocolError::Other(String::from_str("No authentication in progress"))),
        }
    }

    /// Runs an authentication attempt through a provider and returns the
    /// message to send, as [`AuthProvider::authenticate`] says.
    pub fn authenticate_with_provider<P: AuthProvider>(
        &mut self,
        provider: &P,
        environment: &Environment,
    ) -> (r: Result<Message, AuthError>)
        ensures
            provider.attempt(old(self)@, *environment, final(self)@, r),
    {
        provider.authenticate(self, environment)
    }

    /// Ends the session.
    pub fn close(&mut self)
        ensures
            final(self)@ == old(self)@.after(ClientEvent::Closed),
            final(self)@ == ClientState::Closed,
    {
        self.state = ClientState::Closed;
    }
}

} // verus!
