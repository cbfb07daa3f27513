//! The decisions of the request guard.

use vstd::prelude::*;
use vstd::string::*;
use crate::authenticator::{fetched_text, outcome_of, Authenticator, Fetched, Outcome, UserData};
use crate::errors::{auth_error_text, AuthError, AuthErrorView};
use crate::text::same_text;

verus! {

/// The token that a header value carries: what follows the prefix
/// `Bearer ` where the value starts with it and has more than those seven
/// characters, and the whole value otherwise.
pub open spec fn token_of_header(header: Seq<char>) -> Seq<char> {
    if header.len() > 7 && header.subrange(0, 7) == "Bearer "@ {
        header.subrange(7, header.len() as int)
    } else {
        header
    }
}

/// Extracts the token from the value of an `Authorization` header.
pub fn bearer_token(header: &str) -> (token: &str)
    ensures
        token@ == token_of_header(header@),
{
    let n: usize = header.unicode_len();
    if n > 7 && same_text(header.substring_char(0, 7), "Bearer ") {
        header.substring_char(7, n)
    } else {
        header
    }
}

/// A header value of at most seven characters is the token itself.
pub proof fn law_short_header_is_the_token(header: Seq<char>)
    requires
        header.len() <= 7,
    ensures
        token_of_header(header) == header,
{
}

/// The prefix `Bearer ` before a token that is not empty is stripped, and
/// the token is what remains.
pub proof fn law_bearer_prefix_is_stripped(token: Seq<char>)
    requires
        token.len() > 0,
    ensures
        token_of_header("Bearer "@ + token) == token,
{
    reveal_strlit("Bearer ");
    let header = "Bearer "@ + token;
    assert(header.subrange(0, 7) =~= "Bearer "@);
    assert(header.subrange(7, header.len() as int) =~= token);
}

/// A header value that does not start with `Bearer ` is the token itself,
/// however long it is.
pub proof fn law_other_header_is_the_token(header: Seq<char>)
    requires
        header.len() < 7 || header.subrange(0, 7) != "Bearer "@,
    ensures
        token_of_header(header) == header,
{
}

/// What a request carries under the name `Authorization`.
#[derive(Debug)]
pub enum AuthorizationHeader {
    /// The request has no such header.
    Absent,
    /// The header's value is no readable text.
    Unreadable,
    /// The header's value.
    Value(String),
}

/// A response that ends a request: the status and the message of its
/// body, and, for a failed authentication, the line to log.
#[derive(Debug)]
pub struct Rejection {
    pub status: u16,
    pub msg: String,
    pub log: Option<String>,
}

/// What the guard does with a request.
#[derive(Debug)]
pub enum GuardVerdict {
    /// The request goes on to the next handler, unchanged.
    Forward,
    /// The request ends here and is never forwarded.
    Reject(Rejection),
}

impl Rejection {
    /// Whether this is the client error for a request whose header is
    /// missing or cannot be read.
    pub open spec fn is_bad_request(&self) -> bool {
        self.status == 400 && self.msg@ == "missing authorization header"@ && self.log is None
    }

    /// Whether this is the refusal of a request whose authentication
    /// failed with `error`.
    pub open spec fn is_unauthorized(&self, error: AuthErrorView) -> bool {
        self.status == 401 && self.msg@ == "unauthorized"@ && self.log is Some && self.log->0@
            == auth_error_text(error.kind, error.authenticator, error.cause)
    }
}

/// The first step of the guard: the token that the request presents, or
/// the client error with which a request without a readable header ends.
pub fn presented_token(header: &AuthorizationHeader) -> (r: Result<&str, Rejection>)
    ensures
        match *header {
            AuthorizationHeader::Value(v) => r is Ok && r->Ok_0@ == token_of_header(v@),
            _ => r is Err && r->Err_0.is_bad_request(),
        },
{
    match header {
        AuthorizationHeader::Value(v) => Ok(bearer_token(v.as_str())),
        _ => Err(
            Rejection {
                status: 400,
                msg: String::from_str("missing authorization header"),
                log: None,
            },
        ),
    }
}

/// The last step of the guard: an authenticated request is forwarded;
/// any failure of the authentication, whatever its class, ends the
/// request as unauthorized.
pub fn conclude(outcome: &Result<UserData, AuthError>) -> (v: GuardVerdict)
    ensures
        match *outcome {
            Ok(_) => v is Forward,
            Err(e) => v is Reject && v->Reject_0.is_unauthorized(e@),
        },
{
    match outcome {
        Ok(_) => GuardVerdict::Forward,
        Err(e) => GuardVerdict::Reject(
            Rejection { status: 401, msg: String::from_str("unauthorized"), log: Some(e.message()) },
        ),
    }
}

/// Whether `v` is the verdict on an attempt that ended as `outcome`.
pub open spec fn verdict_on(outcome: Outcome, v: GuardVerdict) -> bool {
    match outcome {
        Ok(_) => v is Forward,
        Err(e) => v is Reject && v->Reject_0.is_unauthorized(e),
    }
}

/// Guards one request: reads the token from the header, has
/// `authenticator` verify it against what the key-set endpoint brought,
/// and forwards or rejects. A request without a readable header is a
/// client error and never reaches the authenticator. Otherwise the
/// verdict is the one on an outcome that the authenticator admits for the
/// token that the header carries.
pub fn simple_route_guard<A: Authenticator>(
    authenticator: &A,
    header: &AuthorizationHeader,
    keys: &Fetched,
) -> (v: GuardVerdict)
    ensures
        match *header {
            AuthorizationHeader::Value(text) => exists|o: Outcome|
                #[trigger] authenticator.admits(token_of_header(text@), fetched_text(*keys), o)
                    && verdict_on(o, v),
            _ => v is Reject && v->Reject_0.is_bad_request(),
        },
{
    match presented_token(header) {
        Ok(token) => {
            let outcome = authenticator.authenticate(token, keys);
            let v = conclude(&outcome);
            proof {
                let o = outcome_of(outcome);
                assert(authenticator.admits(token@, fetched_text(*keys), o) && verdict_on(o, v));
            }
            v
        },
        Err(rejection) => GuardVerdict::Reject(rejection),
    }
}

/// Behind an authenticator that admits success alone, every request with
/// a readable header is forwarded.
pub proof fn law_guard_forwards_what_is_always_accepted<A: Authenticator>(
    authenticator: &A,
    token: Seq<char>,
    keys: Result<Seq<char>, Seq<char>>,
    v: GuardVerdict,
)
    requires
        forall|o: Outcome| #[trigger] authenticator.admits(token, keys, o) ==> o is Ok,
        exists|o: Outcome| #[trigger] authenticator.admits(token, keys, o) && verdict_on(o, v),
    ensures
        v is Forward,
{
}

} // verus!
