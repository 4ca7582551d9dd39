//! The OAuth2 authorization-code flow: what to ask of the identity provider,
//! and what to make of its answers. Nothing here touches the network: a
//! caller sends the requests and hands the answers back.

use crate::client::{text_of, Esi, TokenModel, TokenState};
use crate::dispatch::{is_success, status_is_success};
use crate::errors::{AuthFlowReason, EsiError};
use rand::distributions::{Alphanumeric, DistString};
use vstd::prelude::*;
use vstd::string::*;

verus! {

/// The number of characters in a state token.
pub const STATE_LENGTH: usize = 32;

/// An ASCII letter or digit.
pub open spec fn is_alphanumeric(c: char) -> bool {
    ('a' <= c && c <= 'z') || ('A' <= c && c <= 'Z') || ('0' <= c && c <= '9')
}

/// `Alphanumeric.sample_string` on the thread's generator: `len` characters,
/// each an ASCII letter or digit. Which ones is a matter of chance.
#[verifier::external_body]
fn random_alphanumeric(len: usize) -> (s: String)
    requires
        len <= 1024,
    ensures
        s@.len() == len,
        forall|i: int| 0 <= i < s@.len() ==> is_alphanumeric(#[trigger] s@[i]),
{
    Alphanumeric.sample_string(&mut rand::thread_rng(), len)
}

/// The address to which a user is sent to authorize the application.
pub open spec fn authorize_url(
    provider: Seq<char>,
    client_id: Seq<char>,
    callback_url: Seq<char>,
    scopes: Seq<char>,
    state: Seq<char>,
) -> Seq<char> {
    "https://"@ + provider + "/oauth/authorize?response_type=code&client_id="@ + client_id
        + "&redirect_uri="@ + callback_url + "&scope="@ + scopes + "&state="@ + state
}

/// The address of the provider's token endpoint.
pub open spec fn token_url(provider: Seq<char>) -> Seq<char> {
    "https://"@ + provider + "/oauth/token"@
}

/// One attempt at a login: the state token to keep until the callback
/// arrives, and the address to send the user to.
#[derive(Clone, Debug, PartialEq, Eq)]
pub struct AuthorizationRequest {
    pub state: String,
    pub url: String,
}

/// What is handed to the token endpoint in exchange for tokens.
#[derive(Clone, Debug, PartialEq, Eq)]
pub enum Grant {
    AuthorizationCode { code: String },
    RefreshToken { refresh_token: String },
}

/// What a `Grant` holds, as mathematical values.
pub enum GrantModel {
    AuthorizationCode { code: Seq<char> },
    RefreshToken { refresh_token: Seq<char> },
}

impl View for Grant {
    type V = GrantModel;

    open spec fn view(&self) -> GrantModel {
        match self {
            Grant::AuthorizationCode { code } => GrantModel::AuthorizationCode { code: code@ },
            Grant::RefreshToken { refresh_token } => GrantModel::RefreshToken {
                refresh_token: refresh_token@,
            },
        }
    }
}

/// A request to the token endpoint: a form-encoded POST to `url`, with the
/// client's credentials.
#[derive(Clone, Debug, PartialEq, Eq)]
pub struct TokenRequest {
    pub url: String,
    pub client_id: String,
    pub client_secret: String,
    pub grant: Grant,
}

/// What a `TokenRequest` holds, as mathematical values.
pub struct TokenRequestModel {
    pub url: Seq<char>,
    pub client_id: Seq<char>,
    pub client_secret: Seq<char>,
    pub grant: GrantModel,
}

impl TokenRequestModel {
    /// The fields of the form, in the order in which they are sent.
    pub open spec fn form(self) -> Seq<(Seq<char>, Seq<char>)> {
        match self.grant {
            GrantModel::AuthorizationCode { code } => seq![
                ("grant_type"@, "authorization_code"@),
                ("code"@, code),
            ],
            GrantModel::RefreshToken { refresh_token } => seq![
                ("grant_type"@, "refresh_token"@),
                ("refresh_token"@, refresh_token),
            ],
        }
    }
}

impl View for TokenRequest {
    type V = TokenRequestModel;

    open spec fn view(&self) -> TokenRequestModel {
        TokenRequestModel {
            url: self.url@,
            client_id: self.client_id@,
            client_secret: self.client_secret@,
            grant: self.grant@,
        }
    }
}

impl TokenRequest {
    /// The fields of the form, in the order in which they are sent.
    pub fn form_fields(&self) -> (r: Vec<(String, String)>)
        ensures
            r.deep_view() == self@.form(),
    {
        let mut fields: Vec<(String, String)> = Vec::new();
        match &self.grant {
            Grant::AuthorizationCode { code } => {
                fields.push(
                    (String::from_str("grant_type"), String::from_str("authorization_code")),
                );
                fields.push((String::from_str("code"), code.clone()));
            },
            Grant::RefreshToken { refresh_token } => {
                fields.push((String::from_str("grant_type"), String::from_str("refresh_token")));
                fields.push((String::from_str("refresh_token"), refresh_token.clone()));
            },
        }
        assert(fields.deep_view() =~= self@.form());
        fields
    }
}

/// The payload with which the token endpoint answers.
#[derive(Clone, Debug, PartialEq, Eq)]
pub struct TokenResponse {
    pub access_token: String,
    /// The lifetime of the access token, in seconds.
    pub expires_in: u64,
    pub refresh_token: Option<String>,
    pub token_type: String,
}

/// What a `TokenResponse` holds, as mathematical values.
pub struct TokenResponseModel {
    pub access_token: Seq<char>,
    pub expires_in: u64,
    pub refresh_token: Option<Seq<char>>,
    pub token_type: Seq<char>,
}

impl View for TokenResponse {
    type V = TokenResponseModel;

    open spec fn view(&self) -> TokenResponseModel {
        TokenResponseModel {
            access_token: self.access_token@,
            expires_in: self.expires_in,
            refresh_token: text_of(self.refresh_token),
            token_type: self.token_type@,
        }
    }
}

/// The payload of an answer, if there was one that could be read.
pub open spec fn payload_of(payload: Option<TokenResponse>) -> Option<TokenResponseModel> {
    match payload {
        Some(p) => Some(p@),
        None => None,
    }
}

/// The tokens of an outcome, or its failure.
pub open spec fn outcome_of(r: Result<TokenState, EsiError>) -> Result<TokenModel, EsiError> {
    match r {
        Ok(tokens) => Ok(tokens@),
        Err(e) => Err(e),
    }
}

pub open spec fn auth_failure(reason: AuthFlowReason) -> EsiError {
    EsiError::AuthFlowError { reason }
}

/// What the answer to an exchange of an authorization code amounts to at
/// time `now`. Any status outside 200..=299 means that the provider rejected
/// the code. A payload that cannot be read, that lacks the refresh token, or
/// whose lifetime leads past the last representable second is malformed.
/// Otherwise the access token expires `expires_in` seconds after `now`.
pub open spec fn grant_outcome(
    status: u16,
    payload: Option<TokenResponseModel>,
    now: u64,
) -> Result<TokenModel, EsiError> {
    if !is_success(status) {
        Err(auth_failure(AuthFlowReason::CodeRejected))
    } else if payload is None || payload->0.refresh_token is None || now + payload->0.expires_in
        > u64::MAX {
        Err(auth_failure(AuthFlowReason::MalformedPayload))
    } else {
        Ok(
            TokenModel {
                access_token: Some(payload->0.access_token),
                access_expiration: Some((now + payload->0.expires_in) as u64),
                refresh_token: payload->0.refresh_token,
            },
        )
    }
}

/// What the answer to a refresh amounts to at time `now`, for a session that
/// held `prior`. Any status outside 200..=299 means that the provider
/// rejected the refresh token. The access token and its expiration are
/// replaced; the refresh token only where the provider sent a new one.
pub open spec fn refresh_outcome(
    prior: TokenModel,
    status: u16,
    payload: Option<TokenResponseModel>,
    now: u64,
) -> Result<TokenModel, EsiError> {
    if !is_success(status) {
        Err(auth_failure(AuthFlowReason::RefreshRejected))
    } else if payload is None || now + payload->0.expires_in > u64::MAX {
        Err(auth_failure(AuthFlowReason::MalformedPayload))
    } else {
        Ok(
            TokenModel {
                access_token: Some(payload->0.access_token),
                access_expiration: Some((now + payload->0.expires_in) as u64),
                refresh_token: if payload->0.refresh_token is Some {
                    payload->0.refresh_token
                } else {
                    prior.refresh_token
                },
            },
        )
    }
}

impl TokenState {
    /// The tokens that the provider's answer to an exchange of an
    /// authorization code gives, or the failure that it amounts to. A caller
    /// passes the HTTP status, the payload if the body could be read as one,
    /// and the current time in seconds since the epoch.
    pub fn from_grant(status: u16, payload: Option<TokenResponse>, now: u64) -> (r: Result<
        TokenState,
        EsiError,
    >)
        ensures
            outcome_of(r) == grant_outcome(status, payload_of(payload), now),
    {
        if !status_is_success(status) {
            return Err(EsiError::AuthFlowError { reason: AuthFlowReason::CodeRejected });
        }
        let malformed = EsiError::AuthFlowError { reason: AuthFlowReason::MalformedPayload };
        let payload = match payload {
            Some(p) => p,
            None => {
                return Err(malformed);
            },
        };
        let refresh_token = match payload.refresh_token {
            Some(t) => t,
            None => {
                return Err(malformed);
            },
        };
        let expiration = match now.checked_add(payload.expires_in) {
            Some(e) => e,
            None => {
                return Err(malformed);
            },
        };
        Ok(
            TokenState {
                access_token: Some(payload.access_token),
                access_expiration: Some(expiration),
                refresh_token: Some(refresh_token),
            },
        )
    }

    /// The tokens after the provider's answer to a refresh, or the failure
    /// that it amounts to. `self` is left as it is.
    pub fn refreshed(&self, status: u16, payload: Option<TokenResponse>, now: u64) -> (r: Result<
        TokenState,
        EsiError,
    >)
        ensures
            outcome_of(r) == refresh_outcome(self@, status, payload_of(payload), now),
    {
        if !status_is_success(status) {
            return Err(EsiError::AuthFlowError { reason: AuthFlowReason::RefreshRejected });
        }
        let malformed = EsiError::AuthFlowError { reason: AuthFlowReason::MalformedPayload };
        let payload = match payload {
            Some(p) => p,
            None => {
                return Err(malformed);
            },
        };
        let expiration = match now.checked_add(payload.expires_in) {
            Some(e) => e,
            None => {
                return Err(malformed);
            },
        };
        let refresh_token = match payload.refresh_token {
            Some(t) => Some(t),
            None => match &self.refresh_token {
                Some(t) => Some(t.clone()),
                None => None,
            },
        };
        Ok(
            TokenState {
                access_token: Some(payload.access_token),
                access_expiration: Some(expiration),
                refresh_token,
            },
        )
    }
}

/// The tokens of a grant can be used from the moment of the grant until
/// their lifetime is over, and they can be refreshed.
pub proof fn lemma_granted_tokens_are_valid(
    status: u16,
    payload: Option<TokenResponseModel>,
    now: u64,
    later: u64,
)
    requires
        grant_outcome(status, payload, now) is Ok,
        now <= later < now + payload->0.expires_in,
    ensures
        grant_outcome(status, payload, now)->Ok_0.valid_at(later),
        grant_outcome(status, payload, now)->Ok_0.access_token == Some(payload->0.access_token),
        grant_outcome(status, payload, now)->Ok_0.refresh_token is Some,
{
}

/// A refresh never loses the refresh token: afterwards the session holds the
/// new one if the provider sent one, and the prior one otherwise.
pub proof fn lemma_refresh_keeps_a_refresh_token(
    prior: TokenModel,
    status: u16,
    payload: Option<TokenResponseModel>,
    now: u64,
)
    requires
        refresh_outcome(prior, status, payload, now) is Ok,
    ensures
        payload->0.refresh_token is Some ==> refresh_outcome(
            prior,
            status,
            payload,
            now,
        )->Ok_0.refresh_token == payload->0.refresh_token,
        payload->0.refresh_token is None ==> refresh_outcome(
            prior,
            status,
            payload,
            now,
        )->Ok_0.refresh_token == prior.refresh_token,
        forall|later: u64|
            now <= later < now + payload->0.expires_in ==> #[trigger] refresh_outcome(
                prior,
                status,
                payload,
                now,
            )->Ok_0.valid_at(later),
{
}

fn compose_token_url(provider: &str) -> (r: String)
    ensures
        r@ == token_url(provider@),
{
    let mut url = String::from_str("https://");
    url.append(provider);
    url.append("/oauth/token");
    url
}

impl Esi {
    /// The authorization request for a given state token: the address embeds
    /// the client id, the callback URL, the scopes and the state, as they are.
    pub fn authorization_request(&self, provider: &str, scopes: &str, state: String) -> (r:
        AuthorizationRequest)
        ensures
            r.state@ == state@,
            r.url@ == authorize_url(
                provider@,
                self.config@.client_id,
                self.config@.callback_url,
                scopes@,
                state@,
            ),
    {
        let mut url = String::from_str("https://");
        url.append(provider);
        url.append("/oauth/authorize?response_type=code&client_id=");
        url.append(self.config.client_id());
        url.append("&redirect_uri=");
        url.append(self.config.callback_url());
        url.append("&scope=");
        url.append(scopes);
        url.append("&state=");
        url.append(state.as_str());
        AuthorizationRequest { state, url }
    }

    /// Starts a login: draws a fresh random state token and composes the
    /// address to send the user to. The caller keeps the state until the
    /// callback arrives.
    pub fn begin_authorization(&self, provider: &str, scopes: &str) -> (r: AuthorizationRequest)
        ensures
            r.state@.len() == STATE_LENGTH,
            forall|i: int| 0 <= i < r.state@.len() ==> is_alphanumeric(#[trigger] r.state@[i]),
            r.url@ == authorize_url(
                provider@,
                self.config@.client_id,
                self.config@.callback_url,
                scopes@,
                r.state@,
            ),
    {
        let state = random_alphanumeric(STATE_LENGTH);
        self.authorization_request(provider, scopes, state)
    }

    /// Decides what follows a callback. Where the state that came back is
    /// not the one that was issued, the flow fails and there is no request to
    /// send. Otherwise the result is the request that exchanges `code` for
    /// tokens.
    pub fn complete_authorization(
        &self,
        provider: &str,
        code: &str,
        returned_state: &str,
        expected_state: &str,
    ) -> (r: Result<TokenRequest, EsiError>)
        ensures
            returned_state@ != expected_state@ ==> r == Err::<TokenRequest, EsiError>(
                auth_failure(AuthFlowReason::StateMismatch),
            ),
            returned_state@ == expected_state@ ==> r is Ok && r->Ok_0@ == (TokenRequestModel {
                url: token_url(provider@),
                client_id: self.config@.client_id,
                client_secret: self.config@.client_secret,
                grant: GrantModel::AuthorizationCode { code: code@ },
            }),
    {
        if !returned_state.eq(expected_state) {
            return Err(EsiError::AuthFlowError { reason: AuthFlowReason::StateMismatch });
        }
        Ok(
            TokenRequest {
                url: compose_token_url(provider),
                client_id: self.config.client_id().to_owned(),
                client_secret: self.config.client_secret().to_owned(),
                grant: Grant::AuthorizationCode { code: code.to_owned() },
            },
        )
    }

    /// Decides how to renew the access token. Without a refresh token the
    /// flow fails and there is no request to send. Otherwise the result is
    /// the request that exchanges the refresh token for a new access token.
    pub fn refresh(&self, provider: &str) -> (r: Result<TokenRequest, EsiError>)
        ensures
            self.tokens@.refresh_token is None ==> r == Err::<TokenRequest, EsiError>(
                auth_failure(AuthFlowReason::MissingRefreshToken),
            ),
            self.tokens@.refresh_token is Some ==> r is Ok && r->Ok_0@ == (TokenRequestModel {
                url: token_url(provider@),
                client_id: self.config@.client_id,
                client_secret: self.config@.client_secret,
                grant: GrantModel::RefreshToken { refresh_token: self.tokens@.refresh_token->0 },
            }),
    {
        let refresh_token = match &self.tokens.refresh_token {
            Some(t) => t.clone(),
            None => {
                return Err(EsiError::AuthFlowError { reason: AuthFlowReason::MissingRefreshToken });
            },
        };
        Ok(
            TokenRequest {
                url: compose_token_url(provider),
                client_id: self.config.client_id().to_owned(),
                client_secret: self.config.client_secret().to_owned(),
                grant: Grant::RefreshToken { refresh_token },
            },
        )
    }
}

} // verus!
