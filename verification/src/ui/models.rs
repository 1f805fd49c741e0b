//! The state a user interface shows.

use crate::clock::Timestamp;
use vstd::prelude::*;
use vstd::string::*;

verus! {

/// What the interface knows of the connection.
#[derive(Debug, Clone, Default, PartialEq, Eq)]
pub struct AppState {
    /// Whether a connection stands.
    pub is_connected: bool,
    /// Whether a connection is being made.
    pub connecting: bool,
    /// The connection's state in words.
    pub connection_status: String,
    /// The password as typed.
    pub password: String,
    /// Whether the password is shown in clear.
    pub show_password: bool,
    /// The last server address that passed validation.
    pub last_validated_address: Option<String>,
    /// When the connection was made.
    pub connection_time: Option<Timestamp>,
}

impl AppState {
    /// The state before anything happened: disconnected.
    pub fn new() -> (r: AppState)
        ensures
            !r.is_connected,
            !r.connecting,
            r.connection_status@ == "Disconnected"@,
            r.password@ == Seq::<char>::empty(),
            !r.show_password,
            r.last_validated_address is None,
            r.connection_time is None,
    {
        AppState {
            is_connected: false,
            connecting: false,
            connection_status: String::from_str("Disconnected"),
            password: String::new(),
            show_password: false,
            last_validated_address: None,
            connection_time: None,
        }
    }

    /// Records that the connection was made, at the time `now`, or lost. A
    /// connection made is stamped with the time; a connection lost has none.
    pub fn set_connected_at(&mut self, connected: bool, now: Timestamp)
        ensures
            final(self).is_connected == connected,
            final(self).connection_time == if connected {
                Some(now)
            } else {
                None
            },
            final(self).connection_status@ == if connected {
                "Connected"@
            } else {
                "Disconnected"@
            },
            final(self).connecting == old(self).connecting,
            final(self).password == old(self).password,
            final(self).show_password == old(self).show_password,
            final(self).last_validated_address == old(self).last_validated_address,
    {
        self.is_connected = connected;
        if connected {
            self.connection_time = Some(now);
            self.connection_status = String::from_str("Connected");
        } else {
            self.connection_time = None;
            self.connection_status = String::from_str("Disconnected");
        }
    }

    /// Records that the connection was made, now, or lost.
    pub fn set_connected(&mut self, connected: bool)
        ensures
            final(self).is_connected == connected,
            final(self).connection_time is Some == connected,
            final(self).connection_status@ == if connected {
                "Connected"@
            } else {
                "Disconnected"@
            },
            final(self).connecting == old(self).connecting,
            final(self).password == old(self).password,
            final(self).show_password == old(self).show_password,
            final(self).last_validated_address == old(self).last_validated_address,
    {
        self.set_connected_at(connected, Timestamp::now());
    }
}

/// One server in the history of connections.
#[derive(Debug, Clone, PartialEq, Eq)]
pub struct ConnectionEntry {
    /// The server's address.
    pub address: String,
    /// The server's port, as typed.
    pub port: String,
    /// The user, if one was named.
    pub username: Option<String>,
    /// The name of the authentication method.
    pub auth_method: String,
    /// When a connection was last attempted.
    pub last_connected: Timestamp,
    /// Whether a connection ever succeeded.
    pub successful: bool,
}

/// The mathematical reading of a [`ConnectionEntry`].
pub struct ConnectionEntryView {
    pub address: Seq<char>,
    pub port: Seq<char>,
    pub username: Option<Seq<char>>,
    pub auth_method: Seq<char>,
    pub last_connected: Timestamp,
    pub successful: bool,
}

impl ConnectionEntryView {
    /// The entry as shown in a list: `user@address:port`, or `address:port`
    /// where no user is named.
    pub open spec fn display(self) -> Seq<char> {
        match self.username {
            Some(username) => username + "@"@ + self.address + ":"@ + self.port,
            None => self.address + ":"@ + self.port,
        }
    }
}

impl View for ConnectionEntry {
    type V = ConnectionEntryView;

    open spec fn view(&self) -> ConnectionEntryView {
        ConnectionEntryView {
            address: self.address@,
            port: self.port@,
            username: match self.username {
                Some(username) => Some(username@),
                None => None,
            },
            auth_method: self.auth_method@,
            last_connected: self.last_connected,
            successful: self.successful,
        }
    }
}

/// The characters of an optional string.
pub open spec fn optional_text(text: Option<&str>) -> Option<Seq<char>> {
    match text {
        Some(text) => Some(text@),
        None => None,
    }
}

impl ConnectionEntry {
    /// An entry for a connection attempted at the time `now`; it has not
    /// succeeded yet.
    pub fn new_at(
        address: &str,
        port: &str,
        username: Option<&str>,
        auth_method: &str,
        now: Timestamp,
    ) -> (r: ConnectionEntry)
        ensures
            r@ == (ConnectionEntryView {
                address: address@,
                port: port@,
                username: optional_text(username),
                auth_method: auth_method@,
                last_connected: now,
                successful: false,
            }),
    {
        ConnectionEntry {
            address: String::from_str(address),
            port: String::from_str(port),
            username: match username {
                Some(username) => Some(String::from_str(username)),
                None => None,
            },
            auth_method: String::from_str(auth_method),
            last_connected: now,
            successful: false,
        }
    }

    /// An entry for a connection attempted now, as
    /// [`ConnectionEntry::new_at`] makes it for the time the clock reads.
    pub fn new(address: &str, port: &str, username: Option<&str>, auth_method: &str) -> (r:
        ConnectionEntry)
        ensures
            r@.address == address@,
            r@.port == port@,
            r@.username == optional_text(username),
            r@.auth_method == auth_method@,
            !r@.successful,
    {
        ConnectionEntry::new_at(address, port, username, auth_method, Timestamp::now())
    }

    /// Records that the connection succeeded at the time `now`: the entry
    /// counts as successful from now on and was last connected at `now`.
    pub fn mark_successful_at(&mut self, now: Timestamp)
        ensures
            final(self)@ == (ConnectionEntryView {
                successful: true,
                last_connected: now,
                ..old(self)@
            }),
    {
        self.successful = true;
        self.last_connected = now;
    }

    /// Records that the connection succeeded, now, as
    /// [`ConnectionEntry::mark_successful_at`] does for the time the clock
    /// reads.
    pub fn mark_successful(&mut self)
        ensures
            final(self)@.successful,
            final(self)@.address == old(self)@.address,
            final(self)@.port == old(self)@.port,
            final(self)@.username == old(self)@.username,
            final(self)@.auth_method == old(self)@.auth_method,
    {
        self.mark_successful_at(Timestamp::now());
    }

    /// The entry as shown in a list.
    pub fn display_string(&self) -> (r: String)
        ensures
            r@ == self@.display(),
    {
        match &self.username {
            Some(username) => username.clone().concat("@").concat(self.address.as_str()).concat(
                ":",
            ).concat(self.port.as_str()),
            None => self.address.clone().concat(":").concat(self.port.as_str()),
        }
    }
}

} // verus!
