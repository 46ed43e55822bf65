use vstd::prelude::*;

verus! {

/// How long a token stays valid: 21 days, in seconds.
pub const TOKEN_LIFETIME_SECS: i64 = 21 * 24 * 60 * 60;

/// Who made a request, as its token says.
#[derive(Debug, Default, Clone)]
pub struct AuthData {
    pub user_id: i32,
    pub token: String,
}

/// What a token carries: the user id and when it expires (seconds since the
/// Unix epoch).
#[derive(Debug, Clone, Copy, PartialEq, Eq, Structural)]
pub struct Claims {
    pub id: i32,
    pub exp: i64,
}

impl Claims {
    /// The claims of a token issued at `now` (seconds since the Unix epoch)
    /// for user `id`.
    pub fn issued_at(id: i32, now: i64) -> (r: Claims)
        requires
            now <= i64::MAX - TOKEN_LIFETIME_SECS,
        ensures
            r.id == id,
            r.exp == now + TOKEN_LIFETIME_SECS,
    {
        Claims { id, exp: now + TOKEN_LIFETIME_SECS }
    }
}

impl AuthData {
    /// The caller of a request whose token `token` decoded to `claims`.
    pub fn from_claims(claims: &Claims, token: &str) -> (r: AuthData)
        ensures
            r.user_id == claims.id,
            r.token@ == token@,
    {
        AuthData { user_id: claims.id, token: String::from_str(token) }
    }
}

} // verus!
