//! Short-lived storage credentials for one command, checked field by field
//! from the provider's credentials-exchange response.
use vstd::prelude::*;

verus! {

/// The fields of a credentials-exchange response, each possibly absent.
#[derive(Clone, Debug, PartialEq, Eq)]
pub struct CredentialsResponse {
    pub access_key: Option<String>,
    pub secret_key: Option<String>,
    pub session_token: Option<String>,
    /// Expiry, in seconds since the Unix epoch.
    pub expiration: Option<i64>,
}

/// Scoped storage credentials, held in memory for one command only.
#[derive(Clone, Debug, PartialEq, Eq)]
pub struct SessionCredentials {
    pub access_key: String,
    pub secret_key: String,
    pub session_token: String,
    /// Expiry, in seconds since the Unix epoch.
    pub expiration: i64,
}

/// A response that lacks an expected part: a provider contract violation,
/// fatal and not retried.
#[derive(Clone, Copy, Debug, PartialEq, Eq, Structural)]
pub enum SessionError {
    MissingCredentials,
    MissingAccessKey,
    MissingSecretKey,
    MissingSessionToken,
    MissingExpiration,
}

/// The first missing part of a response, checked in the order credentials,
/// access key, secret key, session token, expiry; `None` when all are there.
pub open spec fn missing_part(response: Option<CredentialsResponse>) -> Option<SessionError> {
    match response {
        None => Some(SessionError::MissingCredentials),
        Some(c) => if c.access_key is None {
            Some(SessionError::MissingAccessKey)
        } else if c.secret_key is None {
            Some(SessionError::MissingSecretKey)
        } else if c.session_token is None {
            Some(SessionError::MissingSessionToken)
        } else if c.expiration is None {
            Some(SessionError::MissingExpiration)
        } else {
            None
        },
    }
}

/// Turns a credentials-exchange response into session credentials, failing
/// on the first part that is absent.
pub fn session_credentials(response: Option<CredentialsResponse>) -> (r: Result<
    SessionCredentials,
    SessionError,
>)
    ensures
        match r {
            Ok(s) => {
                &&& missing_part(response) is None
                &&& response == Some(
                    CredentialsResponse {
                        access_key: Some(s.access_key),
                        secret_key: Some(s.secret_key),
                        session_token: Some(s.session_token),
                        expiration: Some(s.expiration),
                    },
                )
            },
            Err(e) => missing_part(response) == Some(e),
        },
{
    match response {
        None => Err(SessionError::MissingCredentials),
        Some(c) => match c.access_key {
            None => Err(SessionError::MissingAccessKey),
            Some(access_key) => match c.secret_key {
                None => Err(SessionError::MissingSecretKey),
                Some(secret_key) => match c.session_token {
                    None => Err(SessionError::MissingSessionToken),
                    Some(session_token) => match c.expiration {
                        None => Err(SessionError::MissingExpiration),
                        Some(expiration) => Ok(
                            SessionCredentials { access_key, secret_key, session_token, expiration },
                        ),
                    },
                },
            },
        },
    }
}

} // verus!
