//! The failures that the library reports.

use crate::text::{decimal, render_decimal};
use vstd::prelude::*;
use vstd::string::*;

verus! {

/// A mandatory setting of the client.
#[derive(Clone, Copy, Debug, PartialEq, Eq, Structural)]
pub enum ConfigField {
    UserAgent,
    ClientId,
    ClientSecret,
    CallbackUrl,
}

/// What is wrong with a setting.
#[derive(Clone, Copy, Debug, PartialEq, Eq, Structural)]
pub enum ConfigFault {
    /// The setting was never supplied.
    Missing,
    /// The setting cannot be sent as the value of an HTTP header.
    IllegalHeaderValue,
}

/// Why a step of the authorization flow failed.
#[derive(Clone, Copy, Debug, PartialEq, Eq, Structural)]
pub enum AuthFlowReason {
    /// The state returned with the callback is not the one that was issued.
    StateMismatch,
    /// The provider did not accept the authorization code.
    CodeRejected,
    /// No refresh token is held.
    MissingRefreshToken,
    /// The provider did not accept the refresh token.
    RefreshRejected,
    /// The provider's token payload could not be used.
    MalformedPayload,
}

/// The kind of a failure below the level of HTTP.
#[derive(Clone, Copy, Debug, PartialEq, Eq, Structural)]
pub enum TransportKind {
    Timeout,
    Connection,
    /// The client or the request could not be put together.
    Setup,
    Other,
}

/// Every failure that a call into the library can end in.
#[derive(Clone, Debug, PartialEq, Eq)]
pub enum EsiError {
    /// A setting of the builder is missing or unusable.
    ConfigError { field: ConfigField, fault: ConfigFault },
    /// A step of the authorization flow failed.
    AuthFlowError { reason: AuthFlowReason },
    /// An authenticated call was attempted without a currently valid access token.
    TokenExpiredError,
    /// The request did not get as far as an HTTP response.
    TransportError { kind: TransportKind },
    /// The API answered with a status outside 200..=299.
    ApiError { status: u16, body: String },
    /// The body of a successful response did not have the expected shape.
    DeserializationError { raw_body: String },
}

impl ConfigField {
    /// The name of the setting, as the builder's method is called.
    pub open spec fn label(self) -> Seq<char> {
        match self {
            ConfigField::UserAgent => "user_agent"@,
            ConfigField::ClientId => "client_id"@,
            ConfigField::ClientSecret => "client_secret"@,
            ConfigField::CallbackUrl => "callback_url"@,
        }
    }

    pub fn name(&self) -> (r: &'static str)
        ensures
            r@ == self.label(),
    {
        match self {
            ConfigField::UserAgent => "user_agent",
            ConfigField::ClientId => "client_id",
            ConfigField::ClientSecret => "client_secret",
            ConfigField::CallbackUrl => "callback_url",
        }
    }
}

impl AuthFlowReason {
    pub open spec fn label(self) -> Seq<char> {
        match self {
            AuthFlowReason::StateMismatch => "state mismatch"@,
            AuthFlowReason::CodeRejected => "authorization code rejected"@,
            AuthFlowReason::MissingRefreshToken => "no refresh token"@,
            AuthFlowReason::RefreshRejected => "refresh token rejected"@,
            AuthFlowReason::MalformedPayload => "malformed token payload"@,
        }
    }

    pub fn describe(&self) -> (r: &'static str)
        ensures
            r@ == self.label(),
    {
        match self {
            AuthFlowReason::StateMismatch => "state mismatch",
            AuthFlowReason::CodeRejected => "authorization code rejected",
            AuthFlowReason::MissingRefreshToken => "no refresh token",
            AuthFlowReason::RefreshRejected => "refresh token rejected",
            AuthFlowReason::MalformedPayload => "malformed token payload",
        }
    }
}

impl TransportKind {
    pub open spec fn label(self) -> Seq<char> {
        match self {
            TransportKind::Timeout => "timeout"@,
            TransportKind::Connection => "connection"@,
            TransportKind::Setup => "setup"@,
            TransportKind::Other => "other"@,
        }
    }

    pub fn describe(&self) -> (r: &'static str)
        ensures
            r@ == self.label(),
    {
        match self {
            TransportKind::Timeout => "timeout",
            TransportKind::Connection => "connection",
            TransportKind::Setup => "setup",
            TransportKind::Other => "other",
        }
    }

    /// The kind of a failure of which the HTTP client says whether it was a
    /// timeout, arose while connecting, or arose while building. A timeout
    /// while connecting counts as a timeout.
    pub open spec fn of_flags(timeout: bool, connect: bool, builder: bool) -> TransportKind {
        if timeout {
            TransportKind::Timeout
        } else if connect {
            TransportKind::Connection
        } else if builder {
            TransportKind::Setup
        } else {
            TransportKind::Other
        }
    }

    pub fn from_flags(timeout: bool, connect: bool, builder: bool) -> (kind: TransportKind)
        ensures
            kind == TransportKind::of_flags(timeout, connect, builder),
    {
        if timeout {
            TransportKind::Timeout
        } else if connect {
            TransportKind::Connection
        } else if builder {
            TransportKind::Setup
        } else {
            TransportKind::Other
        }
    }
}

impl EsiError {
    /// The text of the failure, for people.
    pub open spec fn text(self) -> Seq<char> {
        match self {
            EsiError::ConfigError { field, fault: ConfigFault::Missing } => {
                "Missing `Esi` struct value '"@ + field.label() + "'"@
            },
            EsiError::ConfigError { field, fault: ConfigFault::IllegalHeaderValue } => {
                "Invalid header value in `Esi` struct value '"@ + field.label() + "'"@
            },
            EsiError::AuthFlowError { reason } => "Authorization flow failed: "@ + reason.label(),
            EsiError::TokenExpiredError => "Access token missing or expired"@,
            EsiError::TransportError { kind } => "HTTP transport failure: "@ + kind.label(),
            EsiError::ApiError { status, body } => {
                "API returned status "@ + decimal(status as nat) + ": "@ + body@
            },
            EsiError::DeserializationError { raw_body } => {
                "Could not decode response body: "@ + raw_body@
            },
        }
    }

    /// Renders the failure as text.
    pub fn message(&self) -> (r: String)
        ensures
            r@ == self.text(),
    {
        match self {
            EsiError::ConfigError { field, fault } => {
                let mut s = match fault {
                    ConfigFault::Missing => String::from_str("Missing `Esi` struct value '"),
                    ConfigFault::IllegalHeaderValue => String::from_str(
                        "Invalid header value in `Esi` struct value '",
                    ),
                };
                s.append(field.name());
                s.append("'");
                s
            },
            EsiError::AuthFlowError { reason } => {
                let mut s = String::from_str("Authorization flow failed: ");
                s.append(reason.describe());
                s
            },
            EsiError::TokenExpiredError => String::from_str("Access token missing or expired"),
            EsiError::TransportError { kind } => {
                let mut s = String::from_str("HTTP transport failure: ");
                s.append(kind.describe());
                s
            },
            EsiError::ApiError { status, body } => {
                let mut s = String::from_str("API returned status ");
                let code = render_decimal(*status as u64);
                s.append(code.as_str());
                s.append(": ");
                s.append(body.as_str());
                s
            },
            EsiError::DeserializationError { raw_body } => {
                let mut s = String::from_str("Could not decode response body: ");
                s.append(raw_body.as_str());
                s
            },
        }
    }
}

} // verus!
