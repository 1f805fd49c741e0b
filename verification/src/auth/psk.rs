//! Authentication by a pre-shared key.

use crate::auth::error::{AuthError, AuthErrorView};
use crate::auth::{
    AuthMethod, AuthProvider, Credentials, CredentialsView, Environment, StoreAccount,
    StoreLookup,
};
use crate::protocol::client::{Client, ClientState};
use crate::protocol::error::ProtocolErrorView;
use crate::protocol::json::{object_insert, value_object, value_text, Json};
use crate::protocol::message::{Message, MessageType};
use vstd::prelude::*;
use vstd::string::*;

verus! {

/// Offers a key that client and server share, in the name of a user.
///
/// The key is the one set by [`PskAuthProvider::with_key`]; failing that,
/// the one the secret store holds; failing that, the one the user types in.
#[derive(Debug, Clone, PartialEq, Eq)]
pub struct PskAuthProvider {
    username: String,
    key: Option<String>,
}

/// The mathematical reading of a [`PskAuthProvider`].
pub struct PskProviderView {
    /// The user to authenticate; empty where none was named.
    pub username: Seq<char>,
    /// The key set by the caller, if any.
    pub key: Option<Seq<char>>,
}

impl View for PskAuthProvider {
    type V = PskProviderView;

    closed spec fn view(&self) -> PskProviderView {
        PskProviderView {
            username: self.username@,
            key: match self.key {
                Some(key) => Some(key@),
                None => None,
            },
        }
    }
}

/// The payload that offers a pre-shared key for a user.
pub open spec fn psk_auth_payload(username: Seq<char>, key: Seq<char>) -> Json {
    Json::empty_object().with("username"@, Json::Text(username)).with(
        "credentials"@,
        Json::Text(key),
    ).with("method"@, Json::Text("psk"@))
}

/// The key to offer, given the key set by the caller and the answer of the
/// secret store.
///
/// A key set by the caller is used and the store is not looked at. Otherwise
/// the stored key is used. Where the store has none, the user is asked,
/// which is not implemented and fails; where the store itself failed, that
/// failure is the result and the user is not asked.
pub open spec fn psk_secret(key: Option<Seq<char>>, lookup: StoreLookup) -> Result<
    Seq<char>,
    AuthErrorView,
> {
    match key {
        Some(key) => Ok(key),
        None => match lookup {
            StoreLookup::Found(stored) => Ok(stored@),
            StoreLookup::NotFound => Err(AuthErrorView::Other("PSK dialog not implemented"@)),
            StoreLookup::Failed(detail) => Err(AuthErrorView::SecretStoreError(detail@)),
        },
    }
}

impl PskAuthProvider {
    /// A provider with no user named and no key set.
    pub fn new() -> (r: PskAuthProvider)
        ensures
            r@ == (PskProviderView { username: Seq::empty(), key: None }),
    {
        PskAuthProvider { username: String::new(), key: None }
    }

    /// The provider with the user named.
    pub fn with_username(self, username: &str) -> (r: PskAuthProvider)
        ensures
            r@ == (PskProviderView { username: username@, key: self@.key }),
    {
        let mut provider = self;
        provider.username = String::from_str(username);
        provider
    }

    /// The provider with the key set.
    pub fn with_key(self, key: &str) -> (r: PskAuthProvider)
        ensures
            r@ == (PskProviderView { username: self@.username, key: Some(key@) }),
    {
        let mut provider = self;
        provider.key = Some(String::from_str(key));
        provider
    }

    /// Asks the user for the key. No dialog is implemented, so this always
    /// fails.
    pub fn prompt_for_key(&self) -> (r: Result<String, AuthError>)
        ensures
            r matches Err(error) && error@ == AuthErrorView::Other("PSK dialog not implemented"@),
    {
        Err(AuthError::Other(String::from_str("PSK dialog not implemented")))
    }

    /// The message that offers the given credentials for the provider's
    /// user. Credentials of another method are rejected as invalid.
    pub fn auth_message(&self, credentials: Credentials) -> (r: Result<Message, AuthError>)
        ensures
            match credentials@ {
                CredentialsView::Psk { key } => r matches Ok(message) && message@.message_type
                    == MessageType::Auth && message@.payload == psk_auth_payload(
                    self@.username,
                    key,
                ),
                _ => r matches Err(error) && error@ == AuthErrorView::InvalidCredentials,
            },
    {
        match credentials {
            Credentials::Psk { key } => {
                let mut payload = value_object();
                object_insert(&mut payload, "username", value_text(self.username.as_str()));
                object_insert(&mut payload, "credentials", value_text(key.as_str()));
                object_insert(&mut payload, "method", value_text("psk"));
                Ok(Message::new(MessageType::Auth, payload))
            },
            _ => Err(AuthError::InvalidCredentials),
        }
    }
}

impl AuthProvider for PskAuthProvider {
    open spec fn provides(&self) -> AuthMethod {
        AuthMethod::Psk
    }

    open spec fn wanted_account(&self) -> Option<(Seq<char>, Seq<char>)> {
        match self@.key {
            Some(_) => None,
            None => Some(("rcp-client"@, "psk"@)),
        }
    }

    open spec fn yields(&self, environment: Environment, result: Result<Credentials, AuthError>)
        -> bool {
        match psk_secret(self@.key, environment.stored_secret) {
            Ok(key) => result matches Ok(credentials) && credentials@ == (CredentialsView::Psk {
                key,
            }),
            Err(reason) => result matches Err(error) && error@ == reason,
        }
    }

    open spec fn attempt(
        &self,
        before: ClientState,
        environment: Environment,
        after: ClientState,
        result: Result<Message, AuthError>,
    ) -> bool {
        if before == ClientState::Closed {
            result matches Err(error) && error@ == AuthErrorView::Protocol(
                ProtocolErrorView::ChannelClosed,
            ) && after == ClientState::Closed
        } else {
            match psk_secret(self@.key, environment.stored_secret) {
                Ok(key) => result matches Ok(message) && after
                    == ClientState::Authenticating && message@.message_type == MessageType::Auth && message@.payload
                    == psk_auth_payload(self@.username, key),
                Err(reason) => result matches Err(error) && error@ == reason && after
                    == ClientState::AuthFailed,
            }
        }
    }

    fn method(&self) -> (r: AuthMethod) {
        AuthMethod::Psk
    }

    fn store_account(&self) -> (r: Option<StoreAccount>) {
        match &self.key {
            Some(_) => None,
            None => Some(
                StoreAccount {
                    service: String::from_str("rcp-client"),
                    account: String::from_str("psk"),
                },
            ),
        }
    }

    fn get_credentials(&self, environment: &Environment) -> (r: Result<Credentials, AuthError>) {
        if let Some(key) = &self.key {
            return Ok(Credentials::Psk { key: key.clone() });
        }
        match &environment.stored_secret {
            StoreLookup::Found(stored) => Ok(Credentials::Psk { key: stored.clone() }),
            StoreLookup::NotFound => {
                let key = match self.prompt_for_key() {
                    Ok(key) => key,
                    Err(error) => {
                        return Err(error);
                    },
                };
                Ok(Credentials::Psk { key })
            },
            StoreLookup::Failed(detail) => Err(AuthError::SecretStoreError(detail.clone())),
        }
    }

    fn authenticate(&self, client: &mut Client, environment: &Environment) -> (r: Result<
        Message,
        AuthError,
    >) {
        match client.begin_authentication() {
            Ok(_) => {},
            Err(error) => {
                return Err(AuthError::Protocol(error));
            },
        }
        let credentials = match self.get_credentials(environment) {
            Ok(credentials) => credentials,
            Err(error) => {
                client.authentication_failed();
                return Err(error);
            },
        };
        self.auth_message(credentials)
    }
}

} // verus!
