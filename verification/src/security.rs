//! The auth context resolver: turns an opaque token string into a
//! validated user identity. The scheme is a placeholder — the token is
//! the numeric user id itself — but the interface (token string in,
//! `UserCtx` or `InvalidToken` out) is the stable part.

use vstd::prelude::*;

use crate::model::Store;
use crate::num::{is_i64_token, i64_token_val, parse_i64};

verus! {

/// A resolved caller identity.
#[derive(Debug)]
pub struct UserCtx {
    pub user_id: i64,
}

/// Auth failures.
#[derive(Debug)]
pub enum Error {
    InvalidToken(String),
}

impl Error {
    /// The message this error shows.
    pub open spec fn spec_message(&self) -> Seq<char> {
        match self {
            Error::InvalidToken(tok) => "Invalid Token "@ + tok@,
        }
    }

    /// Render the error's message.
    pub fn message(&self) -> (r: String)
        ensures
            r@ == self.spec_message(),
    {
        match self {
            Error::InvalidToken(tok) => {
                let mut m = String::from_str("Invalid Token ");
                m.append(tok.as_str());
                m
            },
        }
    }
}

/// Resolve an auth token: exactly the strings that read as an `i64`
/// yield a context with that id; everything else is an invalid token.
/// The store handle is reserved for real credential validation.
pub fn utx_from_token(_db: &Store, token: &str) -> (r: Result<UserCtx, Error>)
    ensures
        match r {
            Ok(utx) => is_i64_token(token@) && utx.user_id as int == i64_token_val(token@),
            Err(e) => !is_i64_token(token@) && (e matches Error::InvalidToken(t) && t@
                == token@),
        },
{
    match parse_i64(token) {
        Some(user_id) => Ok(UserCtx { user_id }),
        None => Err(Error::InvalidToken(token.to_owned())),
    }
}

} // verus!
