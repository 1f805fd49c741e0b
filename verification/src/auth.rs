//! Authentication: the methods, the credentials, and the providers that
//! produce credentials and the message that offers them.
//!
//! A provider never touches the outside world. What it needs from there, the
//! answer of the secret store and what the operating system says of the
//! user, reaches it as an [`Environment`]; what it has to send leaves it as
//! a [`Message`].

pub mod error;
pub mod native;
pub mod password;
pub mod psk;

pub use error::AuthError;
pub use native::NativeAuthProvider;
pub use password::{PasswordAuthProvider, PasswordProviderView};
pub use psk::{PskAuthProvider, PskProviderView};

use crate::protocol::client::{Client, ClientState};
use crate::protocol::message::Message;
use vstd::prelude::*;
use vstd::string::*;

verus! {

/// The ways a client can prove who it is.
#[derive(Debug, Clone, Copy, PartialEq, Eq, Structural)]
pub enum AuthMethod {
    /// User name and password.
    Password,
    /// A key that client and server share.
    Psk,
    /// The operating system vouches for the user.
    Native,
    /// A signature with the user's private key.
    PublicKey,
}

/// The text that `str::to_lowercase` returns: every character replaced by
/// its lower-case form as Unicode defines it.
pub uninterp spec fn unicode_lowercase(text: Seq<char>) -> Seq<char>;

/// `str::to_lowercase`: the lower-case form of a text.
#[verifier::external_body]
fn lowercase(text: &str) -> (r: String)
    ensures
        r@ == unicode_lowercase(text@),
{
    text.to_lowercase()
}

impl AuthMethod {
    /// The lower-case token that stands for the method on the wire and in
    /// configuration.
    pub open spec fn token(self) -> Seq<char> {
        match self {
            AuthMethod::Password => "password"@,
            AuthMethod::Psk => "psk"@,
            AuthMethod::Native => "native"@,
            AuthMethod::PublicKey => "publickey"@,
        }
    }

    /// The method that a token stands for; `None` for any other text.
    pub open spec fn of_token(token: Seq<char>) -> Option<AuthMethod> {
        if token == "password"@ {
            Some(AuthMethod::Password)
        } else if token == "psk"@ {
            Some(AuthMethod::Psk)
        } else if token == "native"@ {
            Some(AuthMethod::Native)
        } else if token == "publickey"@ {
            Some(AuthMethod::PublicKey)
        } else {
            None
        }
    }

    /// The method that a text names: the text is a token, or becomes one
    /// when put in lower case. Any other text names no method.
    pub open spec fn parsed(text: Seq<char>) -> Option<AuthMethod> {
        match AuthMethod::of_token(text) {
            Some(method) => Some(method),
            None => AuthMethod::of_token(unicode_lowercase(text)),
        }
    }

    /// Every method is found again from its token, and from nothing that is
    /// no token in either spelling.
    pub proof fn lemma_token_round_trip(method: AuthMethod)
        ensures
            AuthMethod::of_token(method.token()) == Some(method),
            AuthMethod::parsed(method.token()) == Some(method),
    {
        reveal_strlit("password");
        reveal_strlit("psk");
        reveal_strlit("native");
        reveal_strlit("publickey");
        assert("password"@.len() == 8);
        assert("psk"@.len() == 3);
        assert("native"@.len() == 6);
        assert("publickey"@.len() == 9);
    }

    /// A text that is its own lower case names a method exactly when it is
    /// one of the four tokens, and then that method: nothing stands in for
    /// a text that is no token.
    pub proof fn lemma_lower_case_text_is_read_exactly(text: Seq<char>)
        ensures
            unicode_lowercase(text) == text ==> AuthMethod::parsed(text) == AuthMethod::of_token(
                text,
            ),
            AuthMethod::of_token(text) is Some <==> text == "password"@ || text == "psk"@ || text
                == "native"@ || text == "publickey"@,
            AuthMethod::of_token(text) matches Some(method) ==> method.token() == text,
    {
    }

    /// The token of the method as a string slice.
    pub fn as_str(&self) -> (r: &'static str)
        ensures
            r@ == self.token(),
    {
        match self {
            AuthMethod::Password => "password",
            AuthMethod::Psk => "psk",
            AuthMethod::Native => "native",
            AuthMethod::PublicKey => "publickey",
        }
    }

    /// The token of the method. [`AuthMethod::from_str`] reads it back.
    pub fn to_string(&self) -> (r: String)
        ensures
            r@ == self.token(),
            AuthMethod::parsed(r@) == Some(*self),
    {
        proof {
            AuthMethod::lemma_token_round_trip(*self);
        }
        String::from_str(self.as_str())
    }

    /// Reads a method from exactly its token; any other text, a token in
    /// upper case too, gives `None`.
    pub fn from_token(token: &str) -> (r: Option<AuthMethod>)
        ensures
            r == AuthMethod::of_token(token@),
    {
        let text = String::from_str(token);
        if text == String::from_str("password") {
            Some(AuthMethod::Password)
        } else if text == String::from_str("psk") {
            Some(AuthMethod::Psk)
        } else if text == String::from_str("native") {
            Some(AuthMethod::Native)
        } else if text == String::from_str("publickey") {
            Some(AuthMethod::PublicKey)
        } else {
            None
        }
    }

    /// Reads a method from its name, in any mix of upper and lower case. A
    /// text that names no method gives `None`; no method stands in for it.
    pub fn from_str(s: &str) -> (r: Option<AuthMethod>)
        ensures
            r == AuthMethod::parsed(s@),
    {
        match AuthMethod::from_token(s) {
            Some(method) => Some(method),
            None => {
                let lowered = lowercase(s);
                AuthMethod::from_token(lowered.as_str())
            },
        }
    }
}

/// What a client offers as proof, one form per method.
#[derive(Debug, Clone, PartialEq, Eq)]
pub enum Credentials {
    /// User name and password.
    Password { username: String, password: String },
    /// The shared key.
    Psk { key: String },
    /// User name and a token from the operating system.
    Native { username: String, token: Vec<u8> },
    /// User name and a signature.
    PublicKey { username: String, signature: Vec<u8> },
}

/// The mathematical reading of [`Credentials`].
pub enum CredentialsView {
    Password { username: Seq<char>, password: Seq<char> },
    Psk { key: Seq<char> },
    Native { username: Seq<char>, token: Seq<u8> },
    PublicKey { username: Seq<char>, signature: Seq<u8> },
}

impl CredentialsView {
    /// The method the credentials belong to.
    pub open spec fn method(self) -> AuthMethod {
        match self {
            CredentialsView::Password { .. } => AuthMethod::Password,
            CredentialsView::Psk { .. } => AuthMethod::Psk,
            CredentialsView::Native { .. } => AuthMethod::Native,
            CredentialsView::PublicKey { .. } => AuthMethod::PublicKey,
        }
    }
}

impl View for Credentials {
    type V = CredentialsView;

    open spec fn view(&self) -> CredentialsView {
        match self {
            Credentials::Password { username, password } => CredentialsView::Password {
                username: username@,
                password: password@,
            },
            Credentials::Psk { key } => CredentialsView::Psk { key: key@ },
            Credentials::Native { username, token } => CredentialsView::Native {
                username: username@,
                token: token@,
            },
            Credentials::PublicKey { username, signature } => CredentialsView::PublicKey {
                username: username@,
                signature: signature@,
            },
        }
    }
}

impl Credentials {
    /// The method the credentials belong to.
    pub fn method(&self) -> (r: AuthMethod)
        ensures
            r == self@.method(),
    {
        match self {
            Credentials::Password { .. } => AuthMethod::Password,
            Credentials::Psk { .. } => AuthMethod::Psk,
            Credentials::Native { .. } => AuthMethod::Native,
            Credentials::PublicKey { .. } => AuthMethod::PublicKey,
        }
    }
}

/// The entry of the secret store that holds a provider's secret.
#[derive(Debug)]
pub struct StoreAccount {
    /// The service the entry is filed under.
    pub service: String,
    /// The account within the service.
    pub account: String,
}

/// The answer of the secret store to a lookup.
#[derive(Debug, Clone, PartialEq, Eq)]
pub enum StoreLookup {
    /// The store holds this secret.
    Found(String),
    /// The store holds no such entry.
    NotFound,
    /// The store could not be asked; the text says why.
    Failed(String),
}

/// What the outside world tells a provider.
#[derive(Debug, Clone, PartialEq, Eq)]
pub struct Environment {
    /// The answer of the secret store for the provider's
    /// [`AuthProvider::store_account`]. It is looked at only where the
    /// provider names an account.
    pub stored_secret: StoreLookup,
    /// The environment variable `USER`, if set.
    pub user_var: Option<String>,
    /// The environment variable `USERNAME`, if set.
    pub username_var: Option<String>,
    /// The name of the account that runs the process, if the system's user
    /// database knows it.
    pub account_name: Option<String>,
    /// The name of the operating system.
    pub os_name: String,
    /// Whether the platform can issue tokens for native authentication.
    pub native_supported: bool,
}

/// One authentication method at work.
pub trait AuthProvider {
    /// The method the provider implements.
    spec fn provides(&self) -> AuthMethod;

    /// The secret-store entry the provider needs looked up; `None` where it
    /// needs none.
    spec fn wanted_account(&self) -> Option<(Seq<char>, Seq<char>)>;

    /// Whether `result` is an outcome of asking the provider for
    /// credentials in the given environment.
    spec fn yields(&self, environment: Environment, result: Result<Credentials, AuthError>) -> bool;

    /// Whether `result`, with the session going from `before` to `after`,
    /// is an outcome of an authentication attempt in the given environment.
    spec fn attempt(
        &self,
        before: ClientState,
        environment: Environment,
        after: ClientState,
        result: Result<Message, AuthError>,
    ) -> bool;

    /// The method the provider implements.
    fn method(&self) -> (r: AuthMethod)
        ensures
            r == self.provides(),
    ;

    /// The secret-store entry whose lookup the provider wants to find in
    /// the environment; `None` where it will not look.
    fn store_account(&self) -> (r: Option<StoreAccount>)
        ensures
            match r {
                Some(entry) => self.wanted_account() == Some((entry.service@, entry.account@)),
                None => self.wanted_account() is None,
            },
    ;

    /// Produces the credentials to offer.
    fn get_credentials(&self, environment: &Environment) -> (r: Result<Credentials, AuthError>)
        ensures
            self.yields(*environment, r),
            r matches Ok(credentials) ==> credentials@.method() == self.provides(),
    ;

    /// Starts an authentication attempt on a session and returns the message
    /// that offers the credentials.
    fn authenticate(&self, client: &mut Client, environment: &Environment) -> (r: Result<
        Message,
        AuthError,
    >)
        ensures
            self.attempt(old(client)@, *environment, final(client)@, r),
    ;
}

/// A provider of one of the methods that are implemented.
#[derive(Debug)]
pub enum Provider {
    Password(PasswordAuthProvider),
    Psk(PskAuthProvider),
    Native(NativeAuthProvider),
}

impl AuthProvider for Provider {
    open spec fn provides(&self) -> AuthMethod {
        match self {
            Provider::Password(provider) => provider.provides(),
            Provider::Psk(provider) => provider.provides(),
            Provider::Native(provider) => provider.provides(),
        }
    }

    open spec fn wanted_account(&self) -> Option<(Seq<char>, Seq<char>)> {
        match self {
            Provider::Password(provider) => provider.wanted_account(),
            Provider::Psk(provider) => provider.wanted_account(),
            Provider::Native(provider) => provider.wanted_account(),
        }
    }

    open spec fn yields(&self, environment: Environment, result: Result<Credentials, AuthError>)
        -> bool {
        match self {
            Provider::Password(provider) => provider.yields(environment, result),
            Provider::Psk(provider) => provider.yields(environment, result),
            Provider::Native(provider) => provider.yields(environment, result),
        }
    }

    open spec fn attempt(
        &self,
        before: ClientState,
        environment: Environment,
        after: ClientState,
        result: Result<Message, AuthError>,
    ) -> bool {
        match self {
            Provider::Password(provider) => provider.attempt(before, environment, after, result),
            Provider::Psk(provider) => provider.attempt(before, environment, after, result),
            Provider::Native(provider) => provider.attempt(before, environment, after, result),
        }
    }

    fn method(&self) -> (r: AuthMethod) {
        match self {
            Provider::Password(provider) => provider.method(),
            Provider::Psk(provider) => provider.method(),
            Provider::Native(provider) => provider.method(),
        }
    }

    fn store_account(&self) -> (r: Option<StoreAccount>) {
        match self {
            Provider::Password(provider) => provider.store_account(),
            Provider::Psk(provider) => provider.store_account(),
            Provider::Native(provider) => provider.store_account(),
        }
    }

    fn get_credentials(&self, environment: &Environment) -> (r: Result<Credentials, AuthError>) {
        match self {
            Provider::Password(provider) => provider.get_credentials(environment),
            Provider::Psk(provider) => provider.get_credentials(environment),
            Provider::Native(provider) => provider.get_credentials(environment),
        }
    }

    fn authenticate(&self, client: &mut Client, environment: &Environment) -> (r: Result<
        Message,
        AuthError,
    >) {
        match self {
            Provider::Password(provider) => provider.authenticate(client, environment),
            Provider::Psk(provider) => provider.authenticate(client, environment),
            Provider::Native(provider) => provider.authenticate(client, environment),
        }
    }
}

/// A provider together with what the operator must be told about the choice.
#[derive(Debug)]
pub struct ProviderSelection {
    /// The provider to use.
    pub provider: Provider,
    /// Set where the provider is not one of the method that was asked for.
    pub warning: Option<String>,
}

/// The method that serves in place of `method`: the method itself where it
/// is implemented, password authentication where it is not.
pub open spec fn served_by(method: AuthMethod) -> AuthMethod {
    match method {
        AuthMethod::PublicKey => AuthMethod::Password,
        other => other,
    }
}

/// Chooses the provider for a method.
///
/// Public-key authentication is not implemented: it is served by a password
/// provider for the same user, and the selection carries a warning that says
/// so. For every other method the selection carries none.
pub fn create_provider(method: AuthMethod, username: &str) -> (r: ProviderSelection)
    ensures
        r.provider.provides() == served_by(method),
        match method {
            AuthMethod::Password | AuthMethod::PublicKey => r.provider matches Provider::Password(
                provider,
            ) && provider@ == (PasswordProviderView { username: username@, password: None }),
            AuthMethod::Psk => r.provider matches Provider::Psk(provider) && provider@
                == (PskProviderView { username: username@, key: None }),
            AuthMethod::Native => r.provider matches Provider::Native(provider) && provider@
                == username@,
        },
        method == AuthMethod::PublicKey ==> (r.warning matches Some(text) && text@
            == "Public key authentication not implemented yet, falling back to password"@),
        method != AuthMethod::PublicKey ==> r.warning is None,
{
    match method {
        AuthMethod::Password => ProviderSelection {
            provider: Provider::Password(PasswordAuthProvider::new(username)),
            warning: None,
        },
        AuthMethod::Psk => ProviderSelection {
            provider: Provider::Psk(PskAuthProvider::new().with_username(username)),
            warning: None,
        },
        AuthMethod::Native => ProviderSelection {
            provider: Provider::Native(NativeAuthProvider::new(username)),
            warning: None,
        },
        AuthMethod::PublicKey => ProviderSelection {
            provider: Provider::Password(PasswordAuthProvider::new(username)),
            warning: Some(
                String::from_str(
                    "Public key authentication not implemented yet, falling back to password",
                ),
            ),
        },
    }
}

} // verus!
