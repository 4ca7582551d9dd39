//! Builders

use crate::client::{
    text_of, transport_failure, ClientConfig, ConfigModel, Esi, TokenModel, TokenState,
};
use crate::errors::{ConfigFault, ConfigField, EsiError};
use crate::transport::{
    build_client, client_default_headers, client_timeout_millis, header_byte_visible,
    header_map_entries, headers_over_fresh, insert_header, legal_header_value,
    visible_header_value, HEADER_NAME_LIMIT,
};
use reqwest::header::{HeaderMap, HeaderValue};
use reqwest::Client;
use std::time::Duration;
use vstd::prelude::*;
use vstd::string::*;
use vstd::utf8::*;

verus! {

/// The API version that is used when none is set.
pub const DEFAULT_VERSION: &'static str = "latest";

/// The time that a request is given when none is set, in milliseconds.
pub const DEFAULT_TIMEOUT_MILLIS: u64 = 60000;

/// Builder for the `Esi` struct.
#[derive(Clone, Debug)]
pub struct EsiBuilder {
    version: Option<String>,
    client_id: Option<String>,
    client_secret: Option<String>,
    callback_url: Option<String>,
    access_token: Option<String>,
    access_expiration: Option<u64>,
    refresh_token: Option<String>,
    user_agent: Option<String>,
    http_timeout: Option<u64>,
}

/// What a builder has been given so far.
pub struct BuilderModel {
    pub version: Option<Seq<char>>,
    pub client_id: Option<Seq<char>>,
    pub client_secret: Option<Seq<char>>,
    pub callback_url: Option<Seq<char>>,
    pub access_token: Option<Seq<char>>,
    pub access_expiration: Option<u64>,
    pub refresh_token: Option<Seq<char>>,
    pub user_agent: Option<Seq<char>>,
    pub http_timeout: Option<u64>,
}

impl BuilderModel {
    /// A builder that has been given nothing.
    pub open spec fn empty() -> BuilderModel {
        BuilderModel {
            version: None,
            client_id: None,
            client_secret: None,
            callback_url: None,
            access_token: None,
            access_expiration: None,
            refresh_token: None,
            user_agent: None,
            http_timeout: None,
        }
    }

    /// Whether the mandatory setting `field` has been given: set, and not to
    /// the empty text.
    pub open spec fn has(self, field: ConfigField) -> bool {
        match field {
            ConfigField::UserAgent => given(self.user_agent),
            ConfigField::ClientId => given(self.client_id),
            ConfigField::ClientSecret => given(self.client_secret),
            ConfigField::CallbackUrl => given(self.callback_url),
        }
    }

    /// What is wrong with the user agent, if anything: it is missing, or it
    /// cannot be sent as the value of an HTTP header.
    pub open spec fn agent_fault(self) -> Option<EsiError> {
        if !given(self.user_agent) {
            Some(missing(ConfigField::UserAgent))
        } else if !legal_header_value(self.user_agent->0) {
            Some(
                EsiError::ConfigError {
                    field: ConfigField::UserAgent,
                    fault: ConfigFault::IllegalHeaderValue,
                },
            )
        } else {
            None
        }
    }

    /// The failure that `build` reports for these settings, if any. The user
    /// agent is looked at first, then the client id, the client secret and
    /// the callback URL.
    pub open spec fn fault(self) -> Option<EsiError> {
        if self.agent_fault() is Some {
            self.agent_fault()
        } else if !given(self.client_id) {
            Some(missing(ConfigField::ClientId))
        } else if !given(self.client_secret) {
            Some(missing(ConfigField::ClientSecret))
        } else if !given(self.callback_url) {
            Some(missing(ConfigField::CallbackUrl))
        } else {
            None
        }
    }

    /// The time that the client gives each request to complete, in
    /// milliseconds: the one that was set, and 60 000 where none was.
    pub open spec fn timeout_millis(self) -> u64 {
        match self.http_timeout {
            Some(t) => t,
            None => DEFAULT_TIMEOUT_MILLIS,
        }
    }

    /// The settings of the client that is built, where there is no fault.
    pub open spec fn config(self) -> ConfigModel {
        ConfigModel {
            version: match self.version {
                Some(v) => v,
                None => DEFAULT_VERSION@,
            },
            client_id: self.client_id->0,
            client_secret: self.client_secret->0,
            callback_url: self.callback_url->0,
            user_agent: self.user_agent->0,
            http_timeout: self.timeout_millis(),
        }
    }

    /// The tokens that the client starts with.
    pub open spec fn tokens(self) -> TokenModel {
        TokenModel {
            access_token: self.access_token,
            access_expiration: self.access_expiration,
            refresh_token: self.refresh_token,
        }
    }
}

/// The headers that a client with the given user agent sends with every
/// request, each name with the bytes of its value.
pub open spec fn default_header_entries(user_agent: Seq<char>) -> Map<Seq<char>, Seq<u8>> {
    map![
        "user-agent"@ => encode_utf8(user_agent),
        "accept"@ => encode_utf8("application/json"@),
    ]
}

/// Whether a text has been set, and not to the empty text.
pub open spec fn given(value: Option<Seq<char>>) -> bool {
    value is Some && value->0.len() > 0
}

/// The failure that reports a mandatory setting as missing.
pub open spec fn missing(field: ConfigField) -> EsiError {
    EsiError::ConfigError { field, fault: ConfigFault::Missing }
}

impl View for EsiBuilder {
    type V = BuilderModel;

    closed spec fn view(&self) -> BuilderModel {
        BuilderModel {
            version: text_of(self.version),
            client_id: text_of(self.client_id),
            client_secret: text_of(self.client_secret),
            callback_url: text_of(self.callback_url),
            access_token: text_of(self.access_token),
            access_expiration: self.access_expiration,
            refresh_token: text_of(self.refresh_token),
            user_agent: text_of(self.user_agent),
            http_timeout: self.http_timeout,
        }
    }
}

fn is_given(value: &Option<String>) -> (r: bool)
    ensures
        r == given(text_of(*value)),
{
    match value {
        Some(text) => !text.as_str().is_empty(),
        None => false,
    }
}

fn lacking(field: ConfigField) -> (e: EsiError)
    ensures
        e == missing(field),
{
    EsiError::ConfigError { field, fault: ConfigFault::Missing }
}

impl Default for EsiBuilder {
    fn default() -> (r: Self)
        ensures
            r@ == BuilderModel::empty(),
    {
        EsiBuilder::new()
    }
}

fn owned(val: Option<&str>) -> (r: Option<String>)
    ensures
        match val {
            Some(v) => text_of(r) == Some(v@),
            None => r is None,
        },
{
    match val {
        Some(v) => Some(v.to_owned()),
        None => None,
    }
}

impl EsiBuilder {
    /// Start a new builder.
    pub fn new() -> (r: Self)
        ensures
            r@ == BuilderModel::empty(),
    {
        EsiBuilder {
            version: None,
            client_id: None,
            client_secret: None,
            callback_url: None,
            access_token: None,
            access_expiration: None,
            refresh_token: None,
            user_agent: None,
            http_timeout: None,
        }
    }

    /// Set the version of the ESI to use.
    ///
    /// Will default to `"latest"` if not set.
    pub fn version(self, val: &str) -> (r: Self)
        ensures
            r@ == (BuilderModel { version: Some(val@), ..self@ }),
    {
        let mut b = self;
        b.version = Some(val.to_owned());
        b
    }

    /// Set the client id of the application.
    pub fn client_id(self, val: &str) -> (r: Self)
        ensures
            r@ == (BuilderModel { client_id: Some(val@), ..self@ }),
    {
        let mut b = self;
        b.client_id = Some(val.to_owned());
        b
    }

    /// Set the client secret of the application.
    pub fn client_secret(self, val: &str) -> (r: Self)
        ensures
            r@ == (BuilderModel { client_secret: Some(val@), ..self@ }),
    {
        let mut b = self;
        b.client_secret = Some(val.to_owned());
        b
    }

    /// Set the URL that the provider redirects to after authorization.
    pub fn callback_url(self, val: &str) -> (r: Self)
        ensures
            r@ == (BuilderModel { callback_url: Some(val@), ..self@ }),
    {
        let mut b = self;
        b.callback_url = Some(val.to_owned());
        b
    }

    /// Set or clear an access token obtained earlier.
    pub fn access_token(self, val: Option<&str>) -> (r: Self)
        ensures
            r@ == (BuilderModel {
                access_token: match val {
                    Some(v) => Some(v@),
                    None => None,
                },
                ..self@
            }),
    {
        let mut b = self;
        b.access_token = owned(val);
        b
    }

    /// Set or clear the time at which the access token expires, in seconds
    /// since the epoch.
    pub fn access_expiration(self, val: Option<u64>) -> (r: Self)
        ensures
            r@ == (BuilderModel { access_expiration: val, ..self@ }),
    {
        let mut b = self;
        b.access_expiration = val;
        b
    }

    /// Set or clear a refresh token obtained earlier.
    pub fn refresh_token(self, val: Option<&str>) -> (r: Self)
        ensures
            r@ == (BuilderModel {
                refresh_token: match val {
                    Some(v) => Some(v@),
                    None => None,
                },
                ..self@
            }),
    {
        let mut b = self;
        b.refresh_token = owned(val);
        b
    }

    /// Set the user agent that is sent with every request.
    pub fn user_agent(self, val: &str) -> (r: Self)
        ensures
            r@ == (BuilderModel { user_agent: Some(val@), ..self@ }),
    {
        let mut b = self;
        b.user_agent = Some(val.to_owned());
        b
    }

    /// Set the timeout to use in millis when sending HTTP requests.
    ///
    /// Will default to 60,000 (1 minute) if not set.
    pub fn http_timeout(self, val: Option<u64>) -> (r: Self)
        ensures
            r@ == (BuilderModel { http_timeout: val, ..self@ }),
    {
        let mut b = self;
        b.http_timeout = val;
        b
    }

    /// The headers that the client sends with every request: the user agent,
    /// and `Accept: application/json`. Fails where the user agent is missing
    /// or empty, or cannot be sent as a header value.
    pub fn default_headers(&self) -> (r: Result<HeaderMap<HeaderValue>, EsiError>)
        ensures
            match r {
                Ok(map) => {
                    &&& given(self@.user_agent)
                    &&& legal_header_value(self@.user_agent->0)
                    &&& header_map_entries(map) == default_header_entries(self@.user_agent->0)
                },
                Err(e) => {
                    &&& !given(self@.user_agent) || !legal_header_value(self@.user_agent->0)
                    &&& self@.agent_fault() == Some(e)
                    &&& self@.fault() == Some(e)
                },
            },
    {
        let user_agent = match &self.user_agent {
            Some(agent) => agent,
            None => {
                return Err(lacking(ConfigField::UserAgent));
            },
        };
        if user_agent.as_str().is_empty() {
            return Err(lacking(ConfigField::UserAgent));
        }
        let agent_value = match HeaderValue::from_str(user_agent.as_str()) {
            Ok(value) => value,
            Err(_) => {
                return Err(
                    EsiError::ConfigError {
                        field: ConfigField::UserAgent,
                        fault: ConfigFault::IllegalHeaderValue,
                    },
                );
            },
        };
        let mut map = HeaderMap::new();
        insert_header(&mut map, "user-agent", agent_value);
        proof {
            lemma_accept_value_is_visible();
        }
        insert_header(&mut map, "accept", HeaderValue::from_static("application/json"));
        assert(header_map_entries(map) =~= default_header_entries(self@.user_agent->0));
        Ok(map)
    }

    /// Builds the HTTP client with the configured timeout, 60 000 ms where
    /// none was set, and the given default headers.
    fn client_with(&self, headers: HeaderMap<HeaderValue>) -> (r: Result<
        Client,
        reqwest::Error,
    >)
        requires
            header_map_entries(headers).dom().finite(),
            header_map_entries(headers).dom().len() < HEADER_NAME_LIMIT,
        ensures
            r matches Ok(c) ==> client_timeout_millis(c) == self@.timeout_millis(),
            r matches Ok(c) ==> client_default_headers(c) == headers_over_fresh(
                header_map_entries(headers),
            ),
    {
        let http_timeout = match self.http_timeout {
            Some(millis) => Duration::from_millis(millis),
            None => Duration::from_secs(60),
        };
        build_client(http_timeout, headers)
    }

    /// Builds the HTTP client for these settings. It gives each request the
    /// configured timeout, 60 000 ms where none was set, and sends with every
    /// request the user agent and `Accept: application/json`, and no other
    /// header. The access token is not made a default header: a request
    /// carries it only where its endpoint asks for one.
    ///
    /// Fails where the user agent is missing or cannot be sent as a header
    /// value, and, with a transport failure, where the HTTP client cannot be
    /// built on this machine. No request is sent.
    pub fn construct_client(&self, _access_token: Option<&str>) -> (r: Result<Client, EsiError>)
        ensures
            self@.agent_fault() matches Some(e) ==> r == Err::<Client, EsiError>(e),
            self@.agent_fault() is None ==> match r {
                Ok(c) => {
                    &&& client_timeout_millis(c) == self@.timeout_millis()
                    &&& client_default_headers(c) == default_header_entries(self@.user_agent->0)
                },
                Err(e) => e is TransportError,
            },
    {
        let headers = self.default_headers()?;
        proof {
            lemma_default_headers_replace_fresh(self@.user_agent->0);
        }
        match self.client_with(headers) {
            Ok(client) => Ok(client),
            Err(e) => Err(transport_failure(&e)),
        }
    }

    /// Construct the `Esi` instance, consuming the builder.
    ///
    /// The settings are checked in a fixed order: the user agent, which has
    /// to be there and to be a legal HTTP header value, then the client id,
    /// the client secret and the callback URL. A setting that was set to the
    /// empty text counts as missing. The first fault found is reported. Only
    /// then is the HTTP client built, which can fail for reasons of the
    /// machine; that is reported as a transport failure. The client that was
    /// built gives each request the configured timeout and sends the default
    /// headers with every request. No request is sent.
    pub fn build(self) -> (r: Result<Esi, EsiError>)
        ensures
            self@.fault() matches Some(e) ==> r == Err::<Esi, EsiError>(e),
            self@.fault() is None ==> match r {
                Ok(esi) => {
                    &&& esi.config@ == self@.config()
                    &&& esi.tokens@ == self@.tokens()
                    &&& esi.config@.well_formed()
                    &&& client_timeout_millis(esi.client) == self@.config().http_timeout
                    &&& client_default_headers(esi.client) == default_header_entries(
                        self@.user_agent->0,
                    )
                },
                Err(e) => e is TransportError,
            },
    {
        let headers = self.default_headers()?;
        if !is_given(&self.client_id) {
            return Err(lacking(ConfigField::ClientId));
        }
        if !is_given(&self.client_secret) {
            return Err(lacking(ConfigField::ClientSecret));
        }
        if !is_given(&self.callback_url) {
            return Err(lacking(ConfigField::CallbackUrl));
        }
        proof {
            lemma_default_headers_replace_fresh(self@.user_agent->0);
        }
        let transport = self.client_with(headers);
        let config = ClientConfig::new(
            match self.version {
                Some(version) => version,
                None => DEFAULT_VERSION.to_owned(),
            },
            self.client_id.unwrap(),
            self.client_secret.unwrap(),
            self.callback_url.unwrap(),
            self.user_agent.unwrap(),
            self.http_timeout.unwrap_or(DEFAULT_TIMEOUT_MILLIS),
        );
        let tokens = TokenState {
            access_token: self.access_token,
            access_expiration: self.access_expiration,
            refresh_token: self.refresh_token,
        };
        Esi::assemble(config, tokens, transport)
    }
}

impl ConfigField {
    /// The place of the setting in the order in which `build` checks them.
    pub open spec fn rank(self) -> nat {
        match self {
            ConfigField::UserAgent => 0,
            ConfigField::ClientId => 1,
            ConfigField::ClientSecret => 2,
            ConfigField::CallbackUrl => 3,
        }
    }
}

/// Where exactly one mandatory setting is missing (and the user agent, if it
/// is there, is a legal header value), the fault names that setting.
pub proof fn lemma_missing_field_is_named(b: BuilderModel, field: ConfigField)
    requires
        !b.has(field),
        forall|other: ConfigField| other != field ==> b.has(other),
        given(b.user_agent) ==> legal_header_value(b.user_agent->0),
    ensures
        b.fault() == Some(missing(field)),
{
    assert(field != ConfigField::UserAgent ==> b.has(ConfigField::UserAgent));
    assert(field != ConfigField::ClientId ==> b.has(ConfigField::ClientId));
    assert(field != ConfigField::ClientSecret ==> b.has(ConfigField::ClientSecret));
    assert(field != ConfigField::CallbackUrl ==> b.has(ConfigField::CallbackUrl));
}

/// Where several mandatory settings are missing, the fault names the one
/// that comes first in the order of the checks.
pub proof fn lemma_first_missing_field_is_named(b: BuilderModel, field: ConfigField)
    requires
        !b.has(field),
        forall|other: ConfigField| other.rank() < field.rank() ==> b.has(other),
        given(b.user_agent) ==> legal_header_value(b.user_agent->0),
    ensures
        b.fault() == Some(missing(field)),
{
    assert(ConfigField::UserAgent.rank() < field.rank() ==> b.has(ConfigField::UserAgent));
    assert(ConfigField::ClientId.rank() < field.rank() ==> b.has(ConfigField::ClientId));
    assert(ConfigField::ClientSecret.rank() < field.rank() ==> b.has(ConfigField::ClientSecret));
}

/// Settings with every mandatory one given and a legal user agent have no
/// fault, and the client built from them has the version `"latest"` and a
/// timeout of 60 000 ms unless they say otherwise.
pub proof fn lemma_valid_settings_have_defaults(b: BuilderModel)
    requires
        forall|field: ConfigField| b.has(field),
        legal_header_value(b.user_agent->0),
    ensures
        b.fault() is None,
        b.version is None ==> b.config().version == "latest"@,
        b.version is Some ==> b.config().version == b.version->0,
        b.http_timeout is None ==> b.config().http_timeout == 60000,
        b.http_timeout is Some ==> b.config().http_timeout == b.http_timeout->0,
{
    assert(b.has(ConfigField::UserAgent));
    assert(b.has(ConfigField::ClientId));
    assert(b.has(ConfigField::ClientSecret));
    assert(b.has(ConfigField::CallbackUrl));
}

/// The default headers are the user agent and `accept`, and no other: in
/// particular the HTTP client holds no `authorization` header, whatever
/// tokens the builder was given.
pub proof fn lemma_default_headers_hold_no_authorization(user_agent: Seq<char>)
    ensures
        default_header_entries(user_agent).dom() == set!["user-agent"@, "accept"@],
        default_header_entries(user_agent)["user-agent"@] == encode_utf8(user_agent),
        default_header_entries(user_agent)["accept"@] == encode_utf8("application/json"@),
        !default_header_entries(user_agent).dom().contains("authorization"@),
{
    reveal_strlit("user-agent");
    reveal_strlit("accept");
    reveal_strlit("authorization");
    assert("user-agent"@.len() != "accept"@.len());
    assert("authorization"@.len() != "accept"@.len());
    assert("authorization"@.len() != "user-agent"@.len());
    assert(default_header_entries(user_agent).dom() =~= set!["user-agent"@, "accept"@]);
}

/// The default headers take the place of those that a fresh HTTP client
/// starts with, and they are few.
proof fn lemma_default_headers_replace_fresh(user_agent: Seq<char>)
    ensures
        headers_over_fresh(default_header_entries(user_agent)) == default_header_entries(
            user_agent,
        ),
        default_header_entries(user_agent).dom().finite(),
        default_header_entries(user_agent).dom().len() < HEADER_NAME_LIMIT,
{
    let entries = default_header_entries(user_agent);
    assert(entries.dom() =~= set!["user-agent"@, "accept"@]);
    assert(headers_over_fresh(entries) =~= entries);
}

/// `application/json` is made of visible ASCII.
proof fn lemma_accept_value_is_visible()
    ensures
        visible_header_value("application/json"@),
{
    reveal_strlit("application/json");
    let text = "application/json"@;
    assert(is_ascii_chars(text));
    is_ascii_chars_encode_utf8(text);
    assert forall|i: int| 0 <= i < encode_utf8(text).len() implies header_byte_visible(
        #[trigger] encode_utf8(text)[i],
    ) by {
        assert(encode_utf8(text)[i] == text[i] as u8);
    }
}

} // verus!
