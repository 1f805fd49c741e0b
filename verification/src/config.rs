//! Client configuration.

use crate::auth::AuthMethod;
use vstd::prelude::*;
use vstd::string::*;

verus! {

/// The address of a server on this machine.
pub const DEFAULT_SERVER_ADDRESS: &'static str = "127.0.0.1";

/// The port a server listens on unless told otherwise.
pub const DEFAULT_SERVER_PORT: u16 = 8716;

/// The name of the authentication method used unless told otherwise.
pub const DEFAULT_AUTH_METHOD: &'static str = "password";

/// The name of the theme used unless told otherwise.
pub const DEFAULT_UI_THEME: &'static str = "default";

/// Where and how to reach the server.
#[derive(Debug, Clone, PartialEq, Eq)]
pub struct ServerConfig {
    /// The server's address.
    pub address: String,
    /// The server's port.
    pub port: u16,
    /// Whether to ask for an encrypted channel.
    pub use_tls: bool,
    /// The client certificate for mutual TLS.
    pub client_cert_path: Option<String>,
    /// The key of the client certificate.
    pub client_key_path: Option<String>,
    /// Whether to check the server's certificate.
    pub verify_server: bool,
}

/// How to authenticate.
#[derive(Debug, Clone, PartialEq, Eq)]
pub struct AuthConfig {
    /// The name of the method.
    pub method: String,
    /// The user to authenticate.
    pub username: Option<String>,
    /// The pre-shared key.
    pub psk: Option<String>,
    /// Whether to keep credentials in the secret store.
    pub save_credentials: bool,
    /// Whether to prefer the operating system's authentication.
    pub use_native_auth: bool,
}

impl Default for ServerConfig {
    /// A server on this machine, reached in plaintext.
    fn default() -> (r: ServerConfig)
        ensures
            r.address@ == "127.0.0.1"@,
            r.port == 8717,
            !r.use_tls,
            r.client_cert_path is None,
            r.client_key_path is None,
            r.verify_server,
    {
        ServerConfig {
            address: String::from_str("127.0.0.1"),
            port: 8717,
            use_tls: false,
            client_cert_path: None,
            client_key_path: None,
            verify_server: true,
        }
    }
}

impl Default for AuthConfig {
    /// Password authentication, with nothing stored.
    fn default() -> (r: AuthConfig)
        ensures
            r.method@ == "password"@,
            AuthMethod::parsed(r.method@) == Some(AuthMethod::Password),
            r.username is None,
            r.psk is None,
            !r.save_credentials,
            !r.use_native_auth,
    {
        proof {
            AuthMethod::lemma_token_round_trip(AuthMethod::Password);
        }
        AuthConfig {
            method: String::from_str("password"),
            username: None,
            psk: None,
            save_credentials: false,
            use_native_auth: false,
        }
    }
}

/// Whether a configuration says enough to connect and authenticate without
/// asking: a server address, a method that exists, and a user name where the
/// method needs one.
pub open spec fn config_valid(server: ServerConfig, auth: AuthConfig) -> bool {
    &&& server.address@.len() > 0
    &&& match AuthMethod::parsed(auth.method@) {
        Some(AuthMethod::Password) | Some(AuthMethod::Native) => auth.username matches Some(name)
            && name@.len() > 0,
        Some(_) => true,
        None => false,
    }
}

/// Whether a configuration says enough to connect and authenticate without
/// asking.
pub fn is_config_valid(server: &ServerConfig, auth: &AuthConfig) -> (r: bool)
    ensures
        r == config_valid(*server, *auth),
{
    if server.address.as_str().is_empty() {
        return false;
    }
    match AuthMethod::from_str(auth.method.as_str()) {
        Some(AuthMethod::Password) | Some(AuthMethod::Native) => match &auth.username {
            Some(name) => !name.as_str().is_empty(),
            None => false,
        },
        Some(_) => true,
        None => false,
    }
}

/// How an authentication attempt is to be made.
#[derive(Debug)]
pub struct AuthPlan {
    /// The user to authenticate.
    pub username: String,
    /// The method to use.
    pub method: AuthMethod,
    /// What the operator must be told about the plan, if anything.
    pub warning: Option<String>,
}

/// The user to authenticate: the configured one, else the one the variable
/// `USER` names, else the one `USERNAME` names, else `user`.
pub open spec fn planned_username(
    configured: Option<String>,
    user_var: Option<String>,
    username_var: Option<String>,
) -> Seq<char> {
    match (configured, user_var, username_var) {
        (Some(name), _, _) => name@,
        (None, Some(name), _) => name@,
        (None, None, Some(name)) => name@,
        (None, None, None) => "user"@,
    }
}

/// Plans an authentication attempt from the configuration and the
/// environment variables `USER` and `USERNAME`.
///
/// A method name that names no method is not passed over in silence: the
/// plan falls back to password authentication and carries a warning that
/// quotes the name.
pub fn plan_authentication(
    auth: &AuthConfig,
    user_var: Option<String>,
    username_var: Option<String>,
) -> (r: AuthPlan)
    ensures
        r.username@ == planned_username(auth.username, user_var, username_var),
        match AuthMethod::parsed(auth.method@) {
            Some(method) => r.method == method && r.warning is None,
            None => r.method == AuthMethod::Password && (r.warning matches Some(text) && text@
                == "Unknown authentication method: "@ + auth.method@
                + ", falling back to password"@),
        },
{
    let username = match &auth.username {
        Some(name) => name.clone(),
        None => match user_var {
            Some(name) => name,
            None => match username_var {
                Some(name) => name,
                None => String::from_str("user"),
            },
        },
    };
    match AuthMethod::from_str(auth.method.as_str()) {
        Some(method) => AuthPlan { username, method, warning: None },
        None => {
            let text = String::from_str("Unknown authentication method: ").concat(
                auth.method.as_str(),
            ).concat(", falling back to password");
            AuthPlan { username, method: AuthMethod::Password, warning: Some(text) }
        },
    }
}

} // verus!
