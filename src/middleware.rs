use vstd::prelude::*;

use crate::error::AppError;

verus! {

/// What an `Authorization` header starts with before the token.
pub const TOKEN_PREFIX: &'static str = "Token ";

/// The token of an `Authorization` header: what follows `"Token "`; any
/// other header is refused.
pub fn token_from_header(header: &str) -> (r: Result<String, AppError>)
    ensures
        r is Ok <==> (header@.len() >= 6 && header@.take(6) == "Token "@),
        r is Ok ==> r->Ok_0@ == header@.skip(6),
        r is Err ==> r->Err_0 is Unauthorized,
{
    proof {
        reveal_strlit("Token ");
    }
    let len = header.unicode_len();
    if len >= 6 {
        let head = String::from_str(header.substring_char(0, 6));
        if head == String::from_str(TOKEN_PREFIX) {
            return Ok(String::from_str(header.substring_char(6, len)));
        }
    }
    Err(AppError::Unauthorized(String::from_str("Invalid authorization method")))
}

/// The token of a request: none without an `Authorization` header, the one
/// it carries otherwise.
pub fn bearer_token(header: Option<&str>) -> (r: Result<Option<String>, AppError>)
    ensures
        header is None ==> r matches Ok(None),
        header is Some ==> match token_from_header_spec(header->0@) {
            Some(t) => r matches Ok(Some(s)) && s@ == t,
            None => r matches Err(AppError::Unauthorized(_)),
        },
{
    match header {
        None => Ok(None),
        Some(h) => match token_from_header(h) {
            Ok(t) => Ok(Some(t)),
            Err(e) => Err(e),
        },
    }
}

/// The token that a header carries, if it is well formed.
pub open spec fn token_from_header_spec(header: Seq<char>) -> Option<Seq<char>> {
    if header.len() >= 6 && header.take(6) == "Token "@ {
        Some(header.skip(6))
    } else {
        None
    }
}

/// Whether a route demands a token.
pub struct Auth {
    pub is_optional: bool,
}

impl Auth {
    /// A route that only a caller with a token may use.
    pub fn required() -> (r: Self)
        ensures
            !r.is_optional,
    {
        Auth { is_optional: false }
    }

    /// A route that anyone may use.
    pub fn optional() -> (r: Self)
        ensures
            r.is_optional,
    {
        Auth { is_optional: true }
    }

    /// Whether a request goes through to the route.
    pub fn admits(&self, has_token: bool) -> (r: bool)
        ensures
            r == (has_token || self.is_optional),
    {
        has_token || self.is_optional
    }
}

} // verus!
