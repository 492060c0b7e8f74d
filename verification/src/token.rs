//! The outcome of exchanging an authorization code, and what the caller is
//! told about it.

use vstd::prelude::*;
use crate::text::str_eq;

verus! {

/// How an access token is to be presented.
#[derive(Clone, Debug, PartialEq, Eq)]
pub enum TokenType {
    Bearer,
    Mac,
    /// A type that RFC 6749 does not define, as the token endpoint spelt it.
    Extension(String),
}

/// An access token with what the token endpoint said about it.
#[derive(Clone, PartialEq, Eq)]
pub struct AccessToken {
    /// The credential itself.
    pub secret: String,
    pub token_type: TokenType,
    /// The token's lifetime in seconds, counted from the response.
    pub expires_in: Option<u64>,
    pub refresh_token: Option<String>,
    /// The granted scopes, where the token endpoint listed them.
    pub scopes: Option<Vec<String>>,
}

/// How one attempt to exchange a code ended.
#[derive(Clone, PartialEq, Eq)]
pub enum ExchangeOutcome {
    /// The token endpoint issued a token.
    Granted(AccessToken),
    /// The token endpoint answered with an OAuth2 error response.
    Refused { error: String, description: Option<String>, uri: Option<String> },
    /// The request did not get a response. The text says why.
    Transport(String),
    /// The response could not be read as a token or as an error response.
    Unparseable(String),
    /// Anything else that went wrong. The text says what.
    Other(String),
}

/// Why a code was not exchanged for a token. The caller may start the login
/// again; nothing here is fatal.
#[derive(Clone, Debug, PartialEq, Eq)]
pub enum TokenExchangeError {
    /// The request did not get a response.
    Network(String),
    /// The token endpoint refused the code as invalid, expired or revoked.
    InvalidGrant { description: Option<String> },
    /// The token endpoint refused the request for another reason.
    Provider { error: String, description: Option<String>, uri: Option<String> },
    /// The response could not be read.
    MalformedResponse(String),
    Other(String),
}

/// What the caller gets for an outcome: the token, or the error that keeps
/// the upstream detail. An error response with the code `invalid_grant` is
/// a refused code; every other code stays as the token endpoint gave it.
pub open spec fn exchange_result(outcome: ExchangeOutcome) -> Result<
    AccessToken,
    TokenExchangeError,
> {
    match outcome {
        ExchangeOutcome::Granted(token) => Ok(token),
        ExchangeOutcome::Refused { error, description, uri } => if error@ == "invalid_grant"@ {
            Err(TokenExchangeError::InvalidGrant { description })
        } else {
            Err(TokenExchangeError::Provider { error, description, uri })
        },
        ExchangeOutcome::Transport(detail) => Err(TokenExchangeError::Network(detail)),
        ExchangeOutcome::Unparseable(detail) => Err(TokenExchangeError::MalformedResponse(detail)),
        ExchangeOutcome::Other(detail) => Err(TokenExchangeError::Other(detail)),
    }
}

/// Turns the outcome of the one attempt into the caller's result.
pub fn get_token(outcome: ExchangeOutcome) -> (exchanged: Result<AccessToken, TokenExchangeError>)
    ensures
        exchanged == exchange_result(outcome),
{
    match outcome {
        ExchangeOutcome::Granted(token) => Ok(token),
        ExchangeOutcome::Refused { error, description, uri } => {
            if str_eq(error.as_str(), "invalid_grant") {
                Err(TokenExchangeError::InvalidGrant { description })
            } else {
                Err(TokenExchangeError::Provider { error, description, uri })
            }
        },
        ExchangeOutcome::Transport(detail) => Err(TokenExchangeError::Network(detail)),
        ExchangeOutcome::Unparseable(detail) => Err(TokenExchangeError::MalformedResponse(detail)),
        ExchangeOutcome::Other(detail) => Err(TokenExchangeError::Other(detail)),
    }
}

} // verus!
