//! The bearer credential in an `Authorization` header.
use vstd::prelude::*;

use crate::text::{after_prefix, strip_prefix};

verus! {

/// The scheme prefix of a bearer credential.
pub const BEARER_PREFIX: &'static str = "Bearer ";

/// A bearer token taken from an `Authorization` header.
#[derive(Debug, Clone)]
pub struct AuthHeader(pub String);

/// The header does not hold a bearer credential.
#[derive(Debug, Clone, Copy, PartialEq, Eq, Structural)]
pub enum AuthHeaderStringError {
    NotBearer,
}

impl AuthHeader {
    /// Parses `Bearer <token>` into the token.
    pub fn parse_bearer(raw: &str) -> (r: Result<AuthHeader, AuthHeaderStringError>)
        ensures
            r is Err <==> after_prefix(raw@, BEARER_PREFIX@) is None,
            r matches Err(e) ==> e == AuthHeaderStringError::NotBearer,
            r matches Ok(h) ==> after_prefix(raw@, BEARER_PREFIX@) == Some(h.0@),
    {
        match strip_prefix(raw, BEARER_PREFIX) {
            Some(token) => Ok(AuthHeader(token)),
            None => Err(AuthHeaderStringError::NotBearer),
        }
    }

    /// The header value that carries this token.
    pub fn try_into_value(&self) -> (r: String)
        ensures
            r@ == BEARER_PREFIX@ + self.0@,
    {
        let mut v = String::from_str(BEARER_PREFIX);
        v.append(self.0.as_str());
        v
    }
}

impl std::str::FromStr for AuthHeader {
    type Err = AuthHeaderStringError;

    fn from_str(s: &str) -> Result<Self, Self::Err> {
        AuthHeader::parse_bearer(s)
    }
}

/// Parsing the header a token was written into gives the token back.
pub proof fn lemma_bearer_round_trip(token: Seq<char>)
    ensures
        after_prefix(BEARER_PREFIX@ + token, BEARER_PREFIX@) == Some(token),
{
    let s = BEARER_PREFIX@ + token;
    assert(s.subrange(0, BEARER_PREFIX@.len() as int) =~= BEARER_PREFIX@);
    assert(s.subrange(BEARER_PREFIX@.len() as int, s.len() as int) =~= token);
}

} // verus!
