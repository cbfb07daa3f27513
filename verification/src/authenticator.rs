//! The capability that every authenticator offers.

use vstd::prelude::*;
use crate::auth0::Auth0UserData;
use crate::errors::{AuthError, AuthErrorView};
use crate::noop::NoOpUserData;

verus! {

/// A verified identity, tagged by the provider that vouched for it.
#[derive(Debug)]
pub enum UserData {
    Auth0(Auth0UserData),
    Keycloak,
    Okta,
    NoOp(NoOpUserData),
}

/// What a request to one of a provider's endpoints brought: the body of
/// the response, or the reason why there is none.
pub type Fetched = Result<String, String>;

/// A `Fetched` as text.
pub open spec fn fetched_text(fetched: Fetched) -> Result<Seq<char>, Seq<char>> {
    match fetched {
        Ok(body) => Ok(body@),
        Err(m) => Err(m@),
    }
}

/// How an attempt ended, with a failure taken by what it says.
pub type Outcome = Result<UserData, AuthErrorView>;

/// The outcome that a result stands for.
pub open spec fn outcome_of(r: Result<UserData, AuthError>) -> Outcome {
    match r {
        Ok(data) => Ok(data),
        Err(e) => Err(e@),
    }
}

/// Verifies bearer tokens. `keys` is what the caller got from the
/// authenticator's key-set endpoint just before the call; an authenticator
/// without such an endpoint ignores it.
pub trait Authenticator {
    /// Whether `outcome` is a way in which verifying `token` against
    /// `keys` can end. Where the inputs alone decide, exactly one outcome
    /// is admitted; an authenticator that says nothing of itself admits
    /// every outcome.
    open spec fn admits(&self, token: Seq<char>, keys: Result<Seq<char>, Seq<char>>, outcome: Outcome) -> bool {
        true
    }

    /// Verifies `token`. The result is an outcome that the authenticator
    /// admits.
    fn authenticate(&self, token: &str, keys: &Fetched) -> (r: Result<UserData, AuthError>)
        ensures
            self.admits(token@, fetched_text(*keys), outcome_of(r)),
    ;
}

} // verus!
