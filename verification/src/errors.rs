//! Failure values of the authentication pipeline.

use vstd::prelude::*;
use vstd::string::*;
use crate::text::{join3, join4};

verus! {

/// The class of an authentication failure.
#[derive(Clone, Copy, Debug, PartialEq, Eq, Structural)]
pub enum AuthErrorKind {
    Init,
    FetchJwks,
    MalformedToken,
    InvalidToken,
    NoMatchingKey,
    UnimplementedAlgorithm,
}

/// An authentication failure. Every variant carries the identifier of the
/// authenticator that raised it and a human-readable cause.
#[derive(Debug)]
pub enum AuthError {
    Init(String, String),
    FetchJwks(String, String),
    MalformedToken(String, String),
    InvalidToken(String, String),
    NoMatchingKey(String, String),
    UnimplementedAlgorithm(String, String),
}

/// What an `AuthError` says: its class, who raised it, and why.
pub struct AuthErrorView {
    pub kind: AuthErrorKind,
    pub authenticator: Seq<char>,
    pub cause: Seq<char>,
}

impl View for AuthError {
    type V = AuthErrorView;

    open spec fn view(&self) -> AuthErrorView {
        match *self {
            AuthError::Init(a, c) => AuthErrorView {
                kind: AuthErrorKind::Init,
                authenticator: a@,
                cause: c@,
            },
            AuthError::FetchJwks(a, c) => AuthErrorView {
                kind: AuthErrorKind::FetchJwks,
                authenticator: a@,
                cause: c@,
            },
            AuthError::MalformedToken(a, c) => AuthErrorView {
                kind: AuthErrorKind::MalformedToken,
                authenticator: a@,
                cause: c@,
            },
            AuthError::InvalidToken(a, c) => AuthErrorView {
                kind: AuthErrorKind::InvalidToken,
                authenticator: a@,
                cause: c@,
            },
            AuthError::NoMatchingKey(a, c) => AuthErrorView {
                kind: AuthErrorKind::NoMatchingKey,
                authenticator: a@,
                cause: c@,
            },
            AuthError::UnimplementedAlgorithm(a, c) => AuthErrorView {
                kind: AuthErrorKind::UnimplementedAlgorithm,
                authenticator: a@,
                cause: c@,
            },
        }
    }
}

/// The text of a failure of class `kind`, raised by `authenticator` for
/// `cause`.
pub open spec fn auth_error_text(kind: AuthErrorKind, authenticator: Seq<char>, cause: Seq<char>) -> Seq<char> {
    match kind {
        AuthErrorKind::Init => "unable to initialize "@ + authenticator + " client. error: "@ + cause,
        AuthErrorKind::FetchJwks => "unable to fetch jwks for "@ + authenticator + " client. error: "@
            + cause,
        AuthErrorKind::MalformedToken => authenticator + " client detected malformed token. error: "@
            + cause,
        AuthErrorKind::InvalidToken => authenticator + " client detected invalid token. error: "@
            + cause,
        AuthErrorKind::NoMatchingKey => "no matching jwk found ("@ + authenticator + " client). error: "@
            + cause,
        AuthErrorKind::UnimplementedAlgorithm => authenticator + " client does not implement "@
            + cause + " algorithm"@,
    }
}

impl AuthError {
    /// Builds the failure of class `kind`.
    pub fn of_kind(kind: AuthErrorKind, authenticator: String, cause: String) -> (e: AuthError)
        ensures
            e@ == (AuthErrorView { kind, authenticator: authenticator@, cause: cause@ }),
    {
        match kind {
            AuthErrorKind::Init => AuthError::Init(authenticator, cause),
            AuthErrorKind::FetchJwks => AuthError::FetchJwks(authenticator, cause),
            AuthErrorKind::MalformedToken => AuthError::MalformedToken(authenticator, cause),
            AuthErrorKind::InvalidToken => AuthError::InvalidToken(authenticator, cause),
            AuthErrorKind::NoMatchingKey => AuthError::NoMatchingKey(authenticator, cause),
            AuthErrorKind::UnimplementedAlgorithm => AuthError::UnimplementedAlgorithm(
                authenticator,
                cause,
            ),
        }
    }

    /// The class of this failure.
    pub fn kind(&self) -> (k: AuthErrorKind)
        ensures
            k == self@.kind,
    {
        match self {
            AuthError::Init(_, _) => AuthErrorKind::Init,
            AuthError::FetchJwks(_, _) => AuthErrorKind::FetchJwks,
            AuthError::MalformedToken(_, _) => AuthErrorKind::MalformedToken,
            AuthError::InvalidToken(_, _) => AuthErrorKind::InvalidToken,
            AuthError::NoMatchingKey(_, _) => AuthErrorKind::NoMatchingKey,
            AuthError::UnimplementedAlgorithm(_, _) => AuthErrorKind::UnimplementedAlgorithm,
        }
    }

    /// The identifier of the authenticator that raised this failure.
    pub fn authenticator(&self) -> (a: &str)
        ensures
            a@ == self@.authenticator,
    {
        match self {
            AuthError::Init(a, _) => a.as_str(),
            AuthError::FetchJwks(a, _) => a.as_str(),
            AuthError::MalformedToken(a, _) => a.as_str(),
            AuthError::InvalidToken(a, _) => a.as_str(),
            AuthError::NoMatchingKey(a, _) => a.as_str(),
            AuthError::UnimplementedAlgorithm(a, _) => a.as_str(),
        }
    }

    /// The cause of this failure.
    pub fn cause(&self) -> (c: &str)
        ensures
            c@ == self@.cause,
    {
        match self {
            AuthError::Init(_, c) => c.as_str(),
            AuthError::FetchJwks(_, c) => c.as_str(),
            AuthError::MalformedToken(_, c) => c.as_str(),
            AuthError::InvalidToken(_, c) => c.as_str(),
            AuthError::NoMatchingKey(_, c) => c.as_str(),
            AuthError::UnimplementedAlgorithm(_, c) => c.as_str(),
        }
    }

    /// The failure as one line of text.
    pub fn message(&self) -> (m: String)
        ensures
            m@ == auth_error_text(self@.kind, self@.authenticator, self@.cause),
    {
        let a = self.authenticator();
        let c = self.cause();
        match self.kind() {
            AuthErrorKind::Init => join4("unable to initialize ", a, " client. error: ", c),
            AuthErrorKind::FetchJwks => join4("unable to fetch jwks for ", a, " client. error: ", c),
            AuthErrorKind::MalformedToken => join3(a, " client detected malformed token. error: ", c),
            AuthErrorKind::InvalidToken => join3(a, " client detected invalid token. error: ", c),
            AuthErrorKind::NoMatchingKey => join4(
                "no matching jwk found (",
                a,
                " client). error: ",
                c,
            ),
            AuthErrorKind::UnimplementedAlgorithm => join4(
                a,
                " client does not implement ",
                c,
                " algorithm",
            ),
        }
    }
}

} // verus!
