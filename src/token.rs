//! The claims of a custom sign-in token for the identity service. Signing them is left to
//! the caller.
use vstd::prelude::*;

verus! {

/// The audience of a custom token.
pub const CUSTOM_TOKEN_AUDIENCE: &'static str =
    "https://identitytoolkit.googleapis.com/google.identity.identitytoolkit.v1.IdentityToolkit";

/// How long a custom token is valid, in seconds.
pub const CUSTOM_TOKEN_LIFETIME_SECS: i64 = 3600;

pub struct CustomTokenClaims {
    /// The service account that signs the token.
    pub iss: String,
    /// The same account.
    pub sub: String,
    pub aud: String,
    /// Issued at, in seconds since the Unix epoch.
    pub iat: i64,
    /// Expires at, in seconds since the Unix epoch.
    pub exp: i64,
    /// The user the token signs in.
    pub uid: String,
}

/// The claims for signing in `uid`, issued at `issued_at` by `service_account` and valid for
/// one hour.
pub fn custom_token_claims(service_account: &str, uid: &str, issued_at: i64) -> (r: CustomTokenClaims)
    requires
        issued_at <= i64::MAX - CUSTOM_TOKEN_LIFETIME_SECS,
    ensures
        r.iss@ == service_account@,
        r.sub@ == service_account@,
        r.aud@ == CUSTOM_TOKEN_AUDIENCE@,
        r.iat == issued_at,
        r.exp == issued_at + 3600,
        r.uid@ == uid@,
{
    CustomTokenClaims {
        iss: String::from_str(service_account),
        sub: String::from_str(service_account),
        aud: String::from_str(CUSTOM_TOKEN_AUDIENCE),
        iat: issued_at,
        exp: issued_at + CUSTOM_TOKEN_LIFETIME_SECS,
        uid: String::from_str(uid),
    }
}

} // verus!
