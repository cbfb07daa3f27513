use bearer_gateway::authenticator::{Authenticator, Fetched, UserData};
use bearer_gateway::errors::AuthError;
use bearer_gateway::guard::{
    bearer_token, conclude, presented_token, simple_route_guard, AuthorizationHeader, GuardVerdict,
};
use bearer_gateway::noop::NoOpAuth;
use bearer_gateway::text::{join2, join3, join4, same_text};

struct Refuser {}

impl Authenticator for Refuser {
    fn authenticate(&self, token: &str, _keys: &Fetched) -> Result<UserData, AuthError> {
        Err(AuthError::InvalidToken("Refuser".to_string(), token.to_string()))
    }
}

#[test]
fn bearer_prefix_is_stripped() {
    assert_eq!(bearer_token("Bearer abc"), "abc");
    assert_eq!(bearer_token("Bearer a.b.c"), "a.b.c");
    assert_eq!(bearer_token("Bearer Bearer x"), "Bearer x");
}

#[test]
fn header_of_six_characters_passes_through() {
    assert_eq!(bearer_token("Bearer"), "Bearer");
    assert_eq!(bearer_token("abcdef"), "abcdef");
}

#[test]
fn header_of_seven_characters_passes_through() {
    assert_eq!(bearer_token("Bearer "), "Bearer ");
    assert_eq!(bearer_token("abcdefg"), "abcdefg");
}

#[test]
fn header_of_eight_characters_loses_the_prefix() {
    assert_eq!(bearer_token("Bearer a"), "a");
    assert_eq!(bearer_token("Bearer  "), " ");
}

#[test]
fn header_without_the_prefix_passes_through() {
    assert_eq!(bearer_token(""), "");
    assert_eq!(bearer_token("abc"), "abc");
    assert_eq!(bearer_token("Basic dXNlcjpwdw=="), "Basic dXNlcjpwdw==");
    assert_eq!(bearer_token("bearer abcdef"), "bearer abcdef");
    assert_eq!(bearer_token("Bearer\tabcdef"), "Bearer\tabcdef");
}

#[test]
fn header_with_wide_characters_is_cut_by_characters() {
    assert_eq!(bearer_token("Bearer \u{e9}\u{e8}"), "\u{e9}\u{e8}");
    assert_eq!(bearer_token("\u{e9}earer abc"), "\u{e9}earer abc");
}

#[test]
fn request_without_readable_header_is_a_client_error() {
    for header in [AuthorizationHeader::Absent, AuthorizationHeader::Unreadable] {
        let r = presented_token(&header).unwrap_err();
        assert_eq!(r.status, 400);
        assert_eq!(r.msg, "missing authorization header");
        assert_eq!(r.log, None);
    }
    let header = AuthorizationHeader::Value("Bearer abc".to_string());
    assert_eq!(presented_token(&header).ok(), Some("abc"));
    let header = AuthorizationHeader::Value("".to_string());
    assert_eq!(presented_token(&header).ok(), Some(""));
}

#[test]
fn outcome_decides_between_forward_and_unauthorized() {
    let ok: Result<UserData, AuthError> = Ok(UserData::Okta);
    assert!(matches!(conclude(&ok), GuardVerdict::Forward));
    let failed: Result<UserData, AuthError> =
        Err(AuthError::FetchJwks("Auth0".to_string(), "timeout".to_string()));
    match conclude(&failed) {
        GuardVerdict::Reject(r) => {
            assert_eq!(r.status, 401);
            assert_eq!(r.msg, "unauthorized");
            assert_eq!(
                r.log.as_deref(),
                Some("unable to fetch jwks for Auth0 client. error: timeout")
            );
        }
        GuardVerdict::Forward => panic!("forwarded"),
    }
}

#[test]
fn guard_forwards_what_the_authenticator_accepts() {
    let keys: Fetched = Err("not fetched".to_string());
    let header = AuthorizationHeader::Value("Bearer abc".to_string());
    assert!(matches!(simple_route_guard(&NoOpAuth::new(), &header, &keys), GuardVerdict::Forward));
    let header = AuthorizationHeader::Value("".to_string());
    assert!(matches!(simple_route_guard(&NoOpAuth::new(), &header, &keys), GuardVerdict::Forward));
}

#[test]
fn guard_hands_the_stripped_token_to_the_authenticator() {
    let keys: Fetched = Err("not fetched".to_string());
    let header = AuthorizationHeader::Value("Bearer abc".to_string());
    match simple_route_guard(&Refuser {}, &header, &keys) {
        GuardVerdict::Reject(r) => {
            assert_eq!(r.status, 401);
            assert_eq!(r.msg, "unauthorized");
            assert_eq!(r.log.as_deref(), Some("Refuser client detected invalid token. error: abc"));
        }
        GuardVerdict::Forward => panic!("forwarded"),
    }
    let header = AuthorizationHeader::Value("Bearer ".to_string());
    match simple_route_guard(&Refuser {}, &header, &keys) {
        GuardVerdict::Reject(r) => {
            assert_eq!(
                r.log.as_deref(),
                Some("Refuser client detected invalid token. error: Bearer ")
            );
        }
        GuardVerdict::Forward => panic!("forwarded"),
    }
}

#[test]
fn guard_rejects_a_request_without_header_before_any_authentication() {
    let keys: Fetched = Err("not fetched".to_string());
    for header in [AuthorizationHeader::Absent, AuthorizationHeader::Unreadable] {
        match simple_route_guard(&NoOpAuth::new(), &header, &keys) {
            GuardVerdict::Reject(r) => {
                assert_eq!(r.status, 400);
                assert_eq!(r.msg, "missing authorization header");
            }
            GuardVerdict::Forward => panic!("forwarded"),
        }
    }
}

#[test]
fn texts_are_compared_and_joined() {
    assert!(same_text("abc", "abc"));
    assert!(!same_text("abc", "abd"));
    assert!(!same_text("abc", "ab"));
    assert!(same_text("", ""));
    assert_eq!(join2("a", "b"), "ab");
    assert_eq!(join3("a", "", "c"), "ac");
    assert_eq!(join4("a", "b", "c", "d"), "abcd");
}
