//! Authentication decisions of the proxy: the JWT secret in use, and
//! the answer to a request given what its bearer token decoded to.
use vstd::prelude::*;
use crate::config::or_default;

verus! {

/// JWT Claims
#[derive(Debug, Clone)]
pub struct Claims {
    /// Subject (User ID or Service ID)
    pub sub: String,
    /// Expiration time (as UTC timestamp)
    pub exp: usize,
    /// Role or specific permissions
    pub role: String,
}

/// The claims of an authenticated request.
#[derive(Debug, Clone)]
pub struct AuthUser(pub Claims);

/// Authentication Error
#[derive(Debug, Clone, Copy, PartialEq, Eq, Structural)]
pub enum AuthError {
    MissingCredentials,
    InvalidToken,
}

impl AuthError {
    pub open spec fn message(self) -> Seq<char> {
        match self {
            AuthError::MissingCredentials => "Missing credentials"@,
            AuthError::InvalidToken => "Invalid token"@,
        }
    }

    /// HTTP status of the rejection: always 401 Unauthorized.
    pub fn status_code(&self) -> (r: u16)
        ensures
            r == 401,
    {
        401
    }

    /// The `error` text of the rejection's JSON body.
    pub fn message_text(&self) -> (r: String)
        ensures
            r@ == self.message(),
    {
        match self {
            AuthError::MissingCredentials => String::from_str("Missing credentials"),
            AuthError::InvalidToken => String::from_str("Invalid token"),
        }
    }
}

/// The HMAC secret for JWTs: the value of `JWT_SECRET` (passed in), or
/// the development default "secret".
pub fn jwt_secret(env_value: Option<String>) -> (r: String)
    ensures
        r@ == or_default(env_value, "secret"@),
{
    match env_value {
        Some(s) => s,
        None => String::from_str("secret"),
    }
}

/// The outcome of authenticating a request: `credentials` is `None`
/// when the request carries no bearer token, and otherwise holds the
/// claims its token decoded to (`None` when decoding or validation
/// failed).
pub fn authenticate(credentials: Option<Option<Claims>>) -> (r: Result<AuthUser, AuthError>)
    ensures
        match credentials {
            None => r == Err::<AuthUser, AuthError>(AuthError::MissingCredentials),
            Some(None) => r == Err::<AuthUser, AuthError>(AuthError::InvalidToken),
            Some(Some(c)) => r == Ok::<AuthUser, AuthError>(AuthUser(c)),
        },
{
    match credentials {
        None => Err(AuthError::MissingCredentials),
        Some(None) => Err(AuthError::InvalidToken),
        Some(Some(c)) => Ok(AuthUser(c)),
    }
}

} // verus!
