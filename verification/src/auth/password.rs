//! Authentication by user name and password.

use crate::auth::error::{AuthError, AuthErrorView};
use crate::auth::{
    AuthMethod, AuthProvider, Credentials, CredentialsView, Environment, StoreAccount,
    StoreLookup,
};
use crate::protocol::client::{Client, ClientState};
use crate::protocol::error::ProtocolErrorView;
use crate::protocol::json::{object_insert, value_object, value_text, Json};
use crate::protocol::message::{Message, MessageType};
use vstd::prelude::*;
use vstd::string::*;

verus! {

/// Offers a user name and a password.
///
/// The password is the one set by [`PasswordAuthProvider::with_password`];
/// failing that, the one the secret store holds for the user; failing that,
/// the one the user types in.
#[derive(Debug, Clone, PartialEq, Eq)]
pub struct PasswordAuthProvider {
    username: String,
    password: Option<String>,
}

/// The mathematical reading of a [`PasswordAuthProvider`].
pub struct PasswordProviderView {
    /// The user to authenticate.
    pub username: Seq<char>,
    /// The password set by the caller, if any.
    pub password: Option<Seq<char>>,
}

impl View for PasswordAuthProvider {
    type V = PasswordProviderView;

    closed spec fn view(&self) -> PasswordProviderView {
        PasswordProviderView {
            username: self.username@,
            password: match self.password {
                Some(password) => Some(password@),
                None => None,
            },
        }
    }
}

/// The payload that offers a password.
pub open spec fn password_auth_payload(username: Seq<char>, password: Seq<char>) -> Json {
    Json::empty_object().with("username"@, Json::Text(username)).with(
        "credentials"@,
        Json::Text(password),
    ).with("method"@, Json::Text("password"@))
}

impl PasswordProviderView {
    /// The password to offer, given the answer of the secret store.
    ///
    /// A password set by the caller is used and the store is not looked at.
    /// Otherwise the stored password is used. Where the store has none, the
    /// user is asked, which is not implemented and fails; where the store
    /// itself failed, that failure is the result and the user is not asked.
    pub open spec fn secret(self, lookup: StoreLookup) -> Result<Seq<char>, AuthErrorView> {
        match self.password {
            Some(password) => Ok(password),
            None => match lookup {
                StoreLookup::Found(stored) => Ok(stored@),
                StoreLookup::NotFound => Err(
                    AuthErrorView::Other("Password dialog not implemented"@),
                ),
                StoreLookup::Failed(detail) => Err(AuthErrorView::SecretStoreError(detail@)),
            },
        }
    }
}

impl PasswordAuthProvider {
    /// A provider for the given user, with no password set.
    pub fn new(username: &str) -> (r: PasswordAuthProvider)
        ensures
            r@ == (PasswordProviderView { username: username@, password: None }),
    {
        PasswordAuthProvider { username: String::from_str(username), password: None }
    }

    /// The provider with the password set.
    pub fn with_password(self, password: &str) -> (r: PasswordAuthProvider)
        ensures
            r@ == (PasswordProviderView { username: self@.username, password: Some(password@) }),
    {
        let mut provider = self;
        provider.password = Some(String::from_str(password));
        provider
    }

    /// Asks the user for the password. No dialog is implemented, so this
    /// always fails.
    pub fn prompt_for_password(&self) -> (r: Result<String, AuthError>)
        ensures
            r matches Err(error) && error@ == AuthErrorView::Other(
                "Password dialog not implemented"@,
            ),
    {
        Err(AuthError::Other(String::from_str("Password dialog not implemented")))
    }

    /// The message that offers the given credentials. Credentials of
    /// another method are rejected as invalid.
    pub fn auth_message(&self, credentials: Credentials) -> (r: Result<Message, AuthError>)
        ensures
            match credentials@ {
                CredentialsView::Password { username, password } => r matches Ok(message)
                    && message@.message_type == MessageType::Auth && message@.payload
                    == password_auth_payload(username, password),
                _ => r matches Err(error) && error@ == AuthErrorView::InvalidCredentials,
            },
    {
        match credentials {
            Credentials::Password { username, password } => {
                let mut payload = value_object();
                object_insert(&mut payload, "username", value_text(username.as_str()));
                object_insert(&mut payload, "credentials", value_text(password.as_str()));
                object_insert(&mut payload, "method", value_text("password"));
                Ok(Message::new(MessageType::Auth, payload))
            },
            _ => Err(AuthError::InvalidCredentials),
        }
    }
}

impl AuthProvider for PasswordAuthProvider {
    open spec fn provides(&self) -> AuthMethod {
        AuthMethod::Password
    }

    open spec fn wanted_account(&self) -> Option<(Seq<char>, Seq<char>)> {
        match self@.password {
            Some(_) => None,
            None => Some(("rcp-client"@, self@.username)),
        }
    }

    open spec fn yields(&self, environment: Environment, result: Result<Credentials, AuthError>)
        -> bool {
        match self@.secret(environment.stored_secret) {
            Ok(password) => result matches Ok(credentials) && credentials@
                == (CredentialsView::Password { username: self@.username, password }),
            Err(reason) => result matches Err(error) && error@ == reason,
        }
    }

    open spec fn attempt(
        &self,
        before: ClientState,
        environment: Environment,
        after: ClientState,
        result: Result<Message, AuthError>,
    ) -> bool {
        if before == ClientState::Closed {
            result matches Err(error) && error@ == AuthErrorView::Protocol(
                ProtocolErrorView::ChannelClosed,
            ) && after == ClientState::Closed
        } else {
            match self@.secret(environment.stored_secret) {
                Ok(password) => result matches Ok(message) && after
                    == ClientState::Authenticating && message@.message_type == MessageType::Auth && message@.payload
                    == password_auth_payload(self@.username, password),
                Err(reason) => result matches Err(error) && error@ == reason && after
                    == ClientState::AuthFailed,
            }
        }
    }

    fn method(&self) -> (r: AuthMethod) {
        AuthMethod::Password
    }

    fn store_account(&self) -> (r: Option<StoreAccount>) {
        match &self.password {
            Some(_) => None,
            None => Some(
                StoreAccount {
                    service: String::from_str("rcp-client"),
                    account: self.username.clone(),
                },
            ),
        }
    }

    fn get_credentials(&self, environment: &Environment) -> (r: Result<Credentials, AuthError>) {
        if let Some(password) = &self.password {
            return Ok(
                Credentials::Password {
                    username: self.username.clone(),
                    password: password.clone(),
                },
            );
        }
        match &environment.stored_secret {
            StoreLookup::Found(stored) => Ok(
                Credentials::Password { username: self.username.clone(), password: stored.clone() },
            ),
            StoreLookup::NotFound => {
                let password = match self.prompt_for_password() {
                    Ok(password) => password,
                    Err(error) => {
                        return Err(error);
                    },
                };
                Ok(Credentials::Password { username: self.username.clone(), password })
            },
            StoreLookup::Failed(detail) => Err(AuthError::SecretStoreError(detail.clone())),
        }
    }

    fn authenticate(&self, client: &mut Client, environment: &Environment) -> (r: Result<
        Message,
        AuthError,
    >) {
        match client.begin_authentication() {
            Ok(_) => {},
            Err(error) => {
                return Err(AuthError::Protocol(error));
            },
        }
        let credentials = match self.get_credentials(environment) {
            Ok(credentials) => credentials,
            Err(error) => {
                client.authentication_failed();
                return Err(error);
            },
        };
        self.auth_message(credentials)
    }
}

} // verus!
