//! The error taxonomy of the harvest client.
//!
//! Every way a round trip can fail is a distinct variant, so a caller can
//! apply a different retry policy to each: transport failures and timeouts
//! are retryable, a rejected credential or a schema mismatch is not, and a
//! URI that cannot be built points at the configuration.
use vstd::prelude::*;
use vstd::string::*;

use crate::numbers::{dec_digits, u64_to_dec};

verus! {

/// Why a call to the harvesting API failed.
///
/// Every variant carries enough context (URI, status, the authenticating
/// username) to diagnose the failure without a second round trip. No variant
/// holds the secret password or the `Authorization` header value, so no
/// message built from one can leak them.
#[derive(Debug)]
pub enum ClientError {
    /// Connection, DNS or TLS failure; retryable by the caller.
    Transport { uri: String },
    /// The harvest call did not complete within its time budget; retryable,
    /// but the caller should consider backing off.
    Timeout { uri: String },
    /// HTTP 401: the configured credentials were rejected.
    Authentication { uri: String, username: String },
    /// Any other non-200 HTTP status.
    UnexpectedStatus { status: u16, uri: String, username: String },
    /// HTTP 200, but the body did not match the expected schema.
    Deserialization { uri: String, excerpt: String },
    /// Scheme, authority and path do not form a valid URI; this is a
    /// configuration or programming error, not a runtime one.
    InvalidUri { uri: String },
}

impl ClientError {
    /// The operator-facing description of each failure, as a character
    /// sequence. The secret never occurs in it: the authentication message
    /// masks the password with asterisks.
    pub open spec fn spec_message(self) -> Seq<char> {
        match self {
            ClientError::Transport { uri } => "HTTP request failed (to '"@ + uri@ + "')"@,
            ClientError::Timeout { uri } => "Harvest request timed out (to '"@ + uri@ + "')"@,
            ClientError::Authentication { uri, username } => "Requesting '"@ + uri@
                + "' with login '"@ + username@
                + ":******' returned 401 Unauthorized. Check 'sync.user' and 'sync.password'!"@,
            ClientError::UnexpectedStatus { status, uri, username } => "API returned unexpected HTTP code "@
                + dec_digits(status as nat) + " (for '"@ + uri@ + "', authenticating as '"@
                + username@ + "')"@,
            ClientError::Deserialization { uri, excerpt } => "Failed to deserialize API response from '"@
                + uri@ + "': "@ + excerpt@,
            ClientError::InvalidUri { uri } => "Failed to build URI '"@ + uri@
                + "': check the configured scheme and authority"@,
        }
    }

    /// Renders the operator-facing description of this failure.
    pub fn message(&self) -> (r: String)
        ensures
            r@ == self.spec_message(),
    {
        match self {
            ClientError::Transport { uri } => "HTTP request failed (to '".to_owned().concat(
                uri.as_str(),
            ).concat("')"),
            ClientError::Timeout { uri } => "Harvest request timed out (to '".to_owned().concat(
                uri.as_str(),
            ).concat("')"),
            ClientError::Authentication { uri, username } => "Requesting '".to_owned().concat(
                uri.as_str(),
            ).concat("' with login '").concat(username.as_str()).concat(
                ":******' returned 401 Unauthorized. Check 'sync.user' and 'sync.password'!",
            ),
            ClientError::UnexpectedStatus { status, uri, username } => {
                let code = u64_to_dec(*status as u64);
                "API returned unexpected HTTP code ".to_owned().concat(code.as_str()).concat(
                    " (for '",
                ).concat(uri.as_str()).concat("', authenticating as '").concat(
                    username.as_str(),
                ).concat("')")
            },
            ClientError::Deserialization { uri, excerpt } => "Failed to deserialize API response from '".to_owned().concat(
                uri.as_str(),
            ).concat("': ").concat(excerpt.as_str()),
            ClientError::InvalidUri { uri } => "Failed to build URI '".to_owned().concat(
                uri.as_str(),
            ).concat("': check the configured scheme and authority"),
        }
    }
}

} // verus!
