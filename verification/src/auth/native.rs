//! Authentication by the operating system.

use crate::auth::error::{AuthError, AuthErrorView};
use crate::auth::{
    AuthMethod, AuthProvider, Credentials, CredentialsView, Environment, StoreAccount,
};
use crate::protocol::client::{Client, ClientState};
use crate::protocol::error::ProtocolErrorView;
use crate::protocol::json::{object_insert, value_object, value_text, Json};
use crate::protocol::message::{byte_values, Message, MessageType};
use rand::Rng;
use vstd::prelude::*;
use vstd::string::*;

verus! {

/// The number of bytes in a native authentication token.
pub const TOKEN_LEN: usize = 32;

/// `Rng::fill` on the thread's generator: overwrites the bytes with random
/// ones. Only the length is known afterwards.
#[verifier::external_body]
fn fill_random(bytes: &mut Vec<u8>)
    ensures
        final(bytes)@.len() == old(bytes)@.len(),
{
    rand::thread_rng().fill(&mut bytes[..]);
}

/// Offers a user name and a token issued for the current user.
///
/// The user is the one given at construction, or, where that is empty, the
/// one the operating system names.
#[derive(Debug, Clone, PartialEq, Eq)]
pub struct NativeAuthProvider {
    username: String,
}

impl View for NativeAuthProvider {
    type V = Seq<char>;

    /// The user given at construction; empty for the current user.
    closed spec fn view(&self) -> Seq<char> {
        self.username@
    }
}

/// The payload that offers a native token.
pub open spec fn native_auth_payload(username: Seq<char>, token: Seq<u8>, os: Seq<char>) -> Json {
    Json::empty_object().with("username"@, Json::Text(username)).with(
        "credentials"@,
        Json::byte_array(token),
    ).with("method"@, Json::Text("native"@)).with("os"@, Json::Text(os))
}

/// The name the operating system gives the current user: the variable
/// `USER`, else the variable `USERNAME`, else the name in the user database.
pub open spec fn os_username(environment: Environment) -> Option<Seq<char>> {
    match (environment.user_var, environment.username_var, environment.account_name) {
        (Some(name), _, _) => Some(name@),
        (None, Some(name), _) => Some(name@),
        (None, None, Some(name)) => Some(name@),
        (None, None, None) => None,
    }
}

/// The user that native credentials are issued for, or why there are none:
/// first the user must be known, then the platform must issue tokens.
pub open spec fn native_subject(username: Seq<char>, environment: Environment) -> Result<
    Seq<char>,
    AuthErrorView,
> {
    if username.len() == 0 && os_username(environment) is None {
        Err(AuthErrorView::OsAuthFailure("Could not determine OS username"@))
    } else if !environment.native_supported {
        Err(
            AuthErrorView::UnsupportedMethod(
                "Native authentication not supported on this platform"@,
            ),
        )
    } else if username.len() == 0 {
        Ok(os_username(environment).unwrap())
    } else {
        Ok(username)
    }
}

impl NativeAuthProvider {
    /// A provider for the given user; an empty name means the current user.
    pub fn new(username: &str) -> (r: NativeAuthProvider)
        ensures
            r@ == username@,
    {
        NativeAuthProvider { username: String::from_str(username) }
    }

    /// The name the operating system gives the current user.
    pub fn get_os_username(environment: &Environment) -> (r: Result<String, AuthError>)
        ensures
            match os_username(*environment) {
                Some(name) => r matches Ok(found) && found@ == name,
                None => r matches Err(error) && error@ == AuthErrorView::OsAuthFailure(
                    "Could not determine OS username"@,
                ),
            },
    {
        if let Some(name) = &environment.user_var {
            return Ok(name.clone());
        }
        if let Some(name) = &environment.username_var {
            return Ok(name.clone());
        }
        if let Some(name) = &environment.account_name {
            return Ok(name.clone());
        }
        Err(AuthError::OsAuthFailure(String::from_str("Could not determine OS username")))
    }

    /// A token for the current user: random bytes, where the platform
    /// issues tokens at all.
    pub fn generate_auth_token(supported: bool) -> (r: Result<Vec<u8>, AuthError>)
        ensures
            supported ==> (r matches Ok(token) && token@.len() == TOKEN_LEN),
            !supported ==> (r matches Err(error) && error@ == AuthErrorView::UnsupportedMethod(
                "Native authentication not supported on this platform"@,
            )),
    {
        if supported {
            let mut token: Vec<u8> = Vec::new();
            token.resize(TOKEN_LEN, 0u8);
            fill_random(&mut token);
            Ok(token)
        } else {
            Err(
                AuthError::UnsupportedMethod(
                    String::from_str("Native authentication not supported on this platform"),
                ),
            )
        }
    }

    /// The message that offers the given credentials on the operating
    /// system `os`. Credentials of another method are rejected as invalid.
    pub fn auth_message(&self, credentials: Credentials, os: &str) -> (r: Result<
        Message,
        AuthError,
    >)
        ensures
            match credentials@ {
                CredentialsView::Native { username, token } => r matches Ok(message)
                    && message@.message_type == MessageType::Auth && message@.payload
                    == native_auth_payload(username, token, os@),
                _ => r matches Err(error) && error@ == AuthErrorView::InvalidCredentials,
            },
    {
        match credentials {
            Credentials::Native { username, token } => {
                let mut payload = value_object();
                object_insert(&mut payload, "username", value_text(username.as_str()));
                object_insert(&mut payload, "credentials", byte_values(token.as_slice()));
                object_insert(&mut payload, "method", value_text("native"));
                object_insert(&mut payload, "os", value_text(os));
                Ok(Message::new(MessageType::Auth, payload))
            },
            _ => Err(AuthError::InvalidCredentials),
        }
    }
}

impl AuthProvider for NativeAuthProvider {
    open spec fn provides(&self) -> AuthMethod {
        AuthMethod::Native
    }

    open spec fn wanted_account(&self) -> Option<(Seq<char>, Seq<char>)> {
        None
    }

    open spec fn yields(&self, environment: Environment, result: Result<Credentials, AuthError>)
        -> bool {
        match native_subject(self@, environment) {
            Ok(subject) => result matches Ok(Credentials::Native { username, token })
                && username@ == subject && token@.len() == TOKEN_LEN,
            Err(reason) => result matches Err(error) && error@ == reason,
        }
    }

    open spec fn attempt(
        &self,
        before: ClientState,
        environment: Environment,
        after: ClientState,
        result: Result<Message, AuthError>,
    ) -> bool {
        if before == ClientState::Closed {
            result matches Err(error) && error@ == AuthErrorView::Protocol(
                ProtocolErrorView::ChannelClosed,
            ) && after == ClientState::Closed
        } else {
            match native_subject(self@, environment) {
                Ok(subject) => result matches Ok(message) && after
                    == ClientState::Authenticating && message@.message_type == MessageType::Auth && exists|token: Seq<u8>|
                    token.len() == TOKEN_LEN && #[trigger] native_auth_payload(
                        subject,
                        token,
                        environment.os_name@,
                    ) == message@.payload,
                Err(reason) => result matches Err(error) && error@ == reason && after
                    == ClientState::AuthFailed,
            }
        }
    }

    fn method(&self) -> (r: AuthMethod) {
        AuthMethod::Native
    }

    fn store_account(&self) -> (r: Option<StoreAccount>) {
        None
    }

    fn get_credentials(&self, environment: &Environment) -> (r: Result<Credentials, AuthError>) {
        let username = if self.username.as_str().is_empty() {
            match NativeAuthProvider::get_os_username(environment) {
                Ok(name) => name,
                Err(error) => {
                    return Err(error);
                },
            }
        } else {
            self.username.clone()
        };
        let token = match NativeAuthProvider::generate_auth_token(environment.native_supported) {
            Ok(token) => token,
            Err(error) => {
                return Err(error);
            },
        };
        Ok(Credentials::Native { username, token })
    }

    fn authenticate(&self, client: &mut Client, environment: &Environment) -> (r: Result<
        Message,
        AuthError,
    >) {
        match client.begin_authentication() {
            Ok(_) => {},
            Err(error) => {
                return Err(AuthError::Protocol(error));
            },
        }
        let credentials = match self.get_credentials(environment) {
            Ok(credentials) => credentials,
            Err(error) => {
                client.authentication_failed();
                return Err(error);
            },
        };
        self.auth_message(credentials, environment.os_name.as_str())
    }
}

} // verus!
