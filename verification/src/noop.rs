//! An authenticator that lets every request through.

use vstd::prelude::*;
use crate::authenticator::{Authenticator, Fetched, Outcome, UserData};
use crate::errors::{AuthError, AuthErrorView};

verus! {

/// Accepts every token; for development and tests, where identity is not
/// enforced.
#[derive(Debug)]
pub struct NoOpAuth {}

/// Claims of an identity that was accepted without any check.
#[derive(Debug)]
pub struct NoOpUserData {}

impl NoOpAuth {
    pub fn new() -> (a: NoOpAuth)
        ensures
            a == (NoOpAuth {}),
    {
        NoOpAuth {}
    }

    /// Succeeds on every token, the empty one included, with an identity
    /// that carries no claims.
    pub fn accept(&self, token: &str) -> (r: Result<UserData, AuthError>)
        ensures
            r is Ok,
            r->Ok_0 == UserData::NoOp(NoOpUserData {}),
    {
        Ok(UserData::NoOp(NoOpUserData {}))
    }
}

impl Authenticator for NoOpAuth {
    /// The one outcome is success, with an identity that carries no
    /// claims.
    open spec fn admits(&self, token: Seq<char>, keys: Result<Seq<char>, Seq<char>>, outcome: Outcome) -> bool {
        outcome == Ok::<UserData, AuthErrorView>(UserData::NoOp(NoOpUserData {  }))
    }

    fn authenticate(&self, token: &str, keys: &Fetched) -> (r: Result<UserData, AuthError>)
        ensures
            r is Ok,
            r->Ok_0 == UserData::NoOp(NoOpUserData {}),
    {
        self.accept(token)
    }
}

} // verus!
