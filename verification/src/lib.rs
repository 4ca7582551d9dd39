//! Client core for the EVE Swagger Interface (ESI): configuration, OAuth2
//! token lifecycle and request preparation, with machine-checked contracts.
//!
//! The core sends nothing. It builds the client, says which request a step
//! of the authorization flow or a call of an endpoint amounts to, and says
//! what an answer means. Sending, the clock and JSON are the caller's part.

pub mod auth;
pub mod builders;
pub mod client;
pub mod dispatch;
pub mod errors;
pub mod groups;
pub mod text;
pub mod transport;

pub use crate::builders::EsiBuilder;
pub use crate::client::{ClientConfig, Esi, TokenState};
pub use crate::errors::EsiError;
