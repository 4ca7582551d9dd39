//! The client instance: its settings, its tokens and its HTTP client.

use crate::errors::{EsiError, TransportKind};
use crate::transport::{
    failure_is_builder, failure_is_connect, failure_is_timeout, legal_header_value,
};
use reqwest::Client;
use vstd::prelude::*;
use vstd::string::*;

verus! {

/// The text of an optional string.
pub open spec fn text_of(s: Option<String>) -> Option<Seq<char>> {
    match s {
        Some(t) => Some(t@),
        None => None,
    }
}

/// The settings of a client, fixed when it is built. Every value of this type
/// is well formed: the identity, the callback URL and the user agent are not
/// empty, and the user agent can be sent as the value of an HTTP header.
#[derive(Debug, PartialEq, Eq)]
pub struct ClientConfig {
    version: String,
    client_id: String,
    client_secret: String,
    callback_url: String,
    user_agent: String,
    http_timeout: u64,
}

/// What a `ClientConfig` holds, as mathematical values.
pub struct ConfigModel {
    pub version: Seq<char>,
    pub client_id: Seq<char>,
    pub client_secret: Seq<char>,
    pub callback_url: Seq<char>,
    pub user_agent: Seq<char>,
    /// The time that a request is given to complete, in milliseconds.
    pub http_timeout: u64,
}

impl ConfigModel {
    /// The identity, the callback URL and the user agent are not empty, and
    /// the user agent can be sent as the value of an HTTP header.
    pub open spec fn well_formed(self) -> bool {
        &&& self.client_id.len() > 0
        &&& self.client_secret.len() > 0
        &&& self.callback_url.len() > 0
        &&& self.user_agent.len() > 0
        &&& legal_header_value(self.user_agent)
    }
}

impl View for ClientConfig {
    type V = ConfigModel;

    closed spec fn view(&self) -> ConfigModel {
        ConfigModel {
            version: self.version@,
            client_id: self.client_id@,
            client_secret: self.client_secret@,
            callback_url: self.callback_url@,
            user_agent: self.user_agent@,
            http_timeout: self.http_timeout,
        }
    }
}

impl Clone for ClientConfig {
    fn clone(&self) -> (r: Self)
        ensures
            r@ == self@,
    {
        proof {
            use_type_invariant(self);
        }
        ClientConfig {
            version: self.version.clone(),
            client_id: self.client_id.clone(),
            client_secret: self.client_secret.clone(),
            callback_url: self.callback_url.clone(),
            user_agent: self.user_agent.clone(),
            http_timeout: self.http_timeout,
        }
    }
}

impl ClientConfig {
    #[verifier::type_invariant]
    spec fn holds(self) -> bool {
        self@.well_formed()
    }

    /// Settings that are known to be well formed.
    pub(crate) fn new(
        version: String,
        client_id: String,
        client_secret: String,
        callback_url: String,
        user_agent: String,
        http_timeout: u64,
    ) -> (r: ClientConfig)
        requires
            (ConfigModel {
                version: version@,
                client_id: client_id@,
                client_secret: client_secret@,
                callback_url: callback_url@,
                user_agent: user_agent@,
                http_timeout,
            }).well_formed(),
        ensures
            r@ == (ConfigModel {
                version: version@,
                client_id: client_id@,
                client_secret: client_secret@,
                callback_url: callback_url@,
                user_agent: user_agent@,
                http_timeout,
            }),
    {
        ClientConfig { version, client_id, client_secret, callback_url, user_agent, http_timeout }
    }

    /// The version of the API that is called.
    pub fn version(&self) -> (r: &str)
        ensures
            r@ == self@.version,
            self@.well_formed(),
    {
        proof {
            use_type_invariant(self);
        }
        self.version.as_str()
    }

    /// The client id of the application.
    pub fn client_id(&self) -> (r: &str)
        ensures
            r@ == self@.client_id,
            self@.well_formed(),
    {
        proof {
            use_type_invariant(self);
        }
        self.client_id.as_str()
    }

    /// The client secret of the application.
    pub fn client_secret(&self) -> (r: &str)
        ensures
            r@ == self@.client_secret,
            self@.well_formed(),
    {
        proof {
            use_type_invariant(self);
        }
        self.client_secret.as_str()
    }

    /// The URL that the provider redirects to after authorization.
    pub fn callback_url(&self) -> (r: &str)
        ensures
            r@ == self@.callback_url,
            self@.well_formed(),
    {
        proof {
            use_type_invariant(self);
        }
        self.callback_url.as_str()
    }

    /// The user agent that is sent with every request.
    pub fn user_agent(&self) -> (r: &str)
        ensures
            r@ == self@.user_agent,
            self@.well_formed(),
    {
        proof {
            use_type_invariant(self);
        }
        self.user_agent.as_str()
    }

    /// The time that a request is given to complete, in milliseconds.
    pub fn http_timeout(&self) -> (r: u64)
        ensures
            r == self@.http_timeout,
            self@.well_formed(),
    {
        proof {
            use_type_invariant(self);
        }
        self.http_timeout
    }
}

/// The tokens of a session. The expiration is an absolute time in seconds
/// since the epoch.
#[derive(Clone, Debug, PartialEq, Eq)]
pub struct TokenState {
    pub access_token: Option<String>,
    pub access_expiration: Option<u64>,
    pub refresh_token: Option<String>,
}

/// What a `TokenState` holds, as mathematical values.
pub struct TokenModel {
    pub access_token: Option<Seq<char>>,
    pub access_expiration: Option<u64>,
    pub refresh_token: Option<Seq<char>>,
}

impl TokenModel {
    /// No token at all.
    pub open spec fn empty() -> TokenModel {
        TokenModel { access_token: None, access_expiration: None, refresh_token: None }
    }

    /// Whether the access token can be used at time `now`: there is one, its
    /// expiration is known, and `now` lies before it.
    pub open spec fn valid_at(self, now: u64) -> bool {
        self.access_token is Some && self.access_expiration is Some && now
            < self.access_expiration->0
    }
}

impl View for TokenState {
    type V = TokenModel;

    open spec fn view(&self) -> TokenModel {
        TokenModel {
            access_token: text_of(self.access_token),
            access_expiration: self.access_expiration,
            refresh_token: text_of(self.refresh_token),
        }
    }
}

impl TokenState {
    /// The state before any authorization.
    pub fn new() -> (r: TokenState)
        ensures
            r@ == TokenModel::empty(),
    {
        TokenState { access_token: None, access_expiration: None, refresh_token: None }
    }

    /// Whether the access token can be used at time `now`.
    pub fn is_valid(&self, now: u64) -> (r: bool)
        ensures
            r == self@.valid_at(now),
    {
        match (&self.access_token, self.access_expiration) {
            (Some(_), Some(expiration)) => now < expiration,
            _ => false,
        }
    }
}

/// A client instance.
#[derive(Debug)]
pub struct Esi {
    pub config: ClientConfig,
    pub tokens: TokenState,
    pub client: Client,
}

impl Esi {
    /// Puts a client instance together from its settings, its tokens and the
    /// outcome of building the HTTP client. A client that could not be built
    /// is a transport failure, of the kind that the flags on the HTTP client
    /// library's error give.
    pub fn assemble(
        config: ClientConfig,
        tokens: TokenState,
        transport: Result<Client, reqwest::Error>,
    ) -> (r: Result<Esi, EsiError>)
        ensures
            match transport {
                Ok(client) => r == Ok::<Esi, EsiError>(Esi { config, tokens, client }),
                Err(e) => r == Err::<Esi, EsiError>(
                    EsiError::TransportError { kind: transport_kind_of(e) },
                ),
            },
    {
        match transport {
            Ok(client) => Ok(Esi { config, tokens, client }),
            Err(e) => Err(transport_failure(&e)),
        }
    }

    /// The same client with other tokens. The tokens are replaced as a whole,
    /// so that no reader sees half of an update.
    pub fn with_tokens(self, tokens: TokenState) -> (r: Esi)
        ensures
            r == (Esi { tokens, ..self }),
    {
        Esi { config: self.config, tokens, client: self.client }
    }
}

/// The failure that stands for an error of the HTTP client library: a
/// transport failure of the kind that the error's flags give.
pub fn transport_failure(e: &reqwest::Error) -> (r: EsiError)
    ensures
        r == (EsiError::TransportError { kind: transport_kind_of(*e) }),
{
    let kind = TransportKind::from_flags(e.is_timeout(), e.is_connect(), e.is_builder());
    EsiError::TransportError { kind }
}

/// The kind of an error of the HTTP client library: a timeout where the
/// library says that it was one, else a failure to connect where it says so,
/// else a failure of setup where it says that the error arose while building,
/// and another failure otherwise.
pub open spec fn transport_kind_of(e: reqwest::Error) -> TransportKind {
    TransportKind::of_flags(failure_is_timeout(e), failure_is_connect(e), failure_is_builder(e))
}

} // verus!
