use vstd::prelude::*;

verus! {

/// Seconds in the 24-hour lifetime of a session token.
pub const TOKEN_TTL_SECONDS: usize = 86400;

/// Runtime configuration handed to the service at startup.
#[derive(Clone, Debug)]
pub struct Config {
    pub database_url: String,
    pub jwt_secret: String,
}

impl Config {
    pub fn new(database_url: String, jwt_secret: String) -> (c: Config)
        ensures
            c.database_url == database_url,
            c.jwt_secret == jwt_secret,
    {
        Config { database_url, jwt_secret }
    }
}

/// The claims carried by a session token.
#[derive(Clone, Debug, PartialEq, Eq)]
pub struct Claims {
    /// Subject: the user's identifier.
    pub sub: String,
    pub email: String,
    /// Expiration time, seconds since the epoch.
    pub exp: usize,
}

impl Claims {
    /// Builds the claims for a fresh session token: the token expires exactly
    /// 24 hours after `now` (seconds since the epoch).
    pub fn issue(user_id: String, email: String, now: usize) -> (c: Claims)
        requires
            now + TOKEN_TTL_SECONDS <= usize::MAX,
        ensures
            c.sub == user_id,
            c.email == email,
            c.exp == now + TOKEN_TTL_SECONDS,
    {
        Claims { sub: user_id, email, exp: now + TOKEN_TTL_SECONDS }
    }
}

/// An authenticated request's verified claims.
#[derive(Clone, Debug)]
pub struct AuthUser(pub Claims);

/// Payload of a registration request.
#[derive(Clone, Debug)]
pub struct CreateUser {
    pub email: String,
    pub password: String,
    pub username: Option<String>,
}

/// Payload of a profile update.
#[derive(Clone, Debug)]
pub struct UpdateProfile {
    pub username: Option<String>,
}

/// Payload of a login request.
#[derive(Clone, Debug)]
pub struct LoginRequest {
    pub email: String,
    pub password: String,
}

} // verus!
