//! The authenticator that verifies tokens against an Auth0 tenant.

use vstd::prelude::*;
use vstd::string::*;
use crate::authenticator::{fetched_text, outcome_of, Authenticator, Fetched, Outcome, UserData};
use crate::errors::{AuthError, AuthErrorKind, AuthErrorView};
use crate::text::{join2, texts_of};
use crate::json::{json_of_text, Json};
use crate::keys::{key_set_of, no_match_text, resolved, KeyEntryView, SigningKeySet};
use crate::token::{
    build_verification_key, decode_token_header, header_of, key_failure, validate, TokenHeader,
};

verus! {

/// The name under which this authenticator reports its failures.
pub open spec fn authenticator_id() -> Seq<char> {
    "Auth0"@
}

/// The path of a tenant's discovery document, below the tenant's base
/// URI.
pub open spec fn discovery_suffix() -> Seq<char> {
    "/.well-known/openid-configuration"@
}

/// A tenant's metadata, as its discovery document gives it.
#[derive(Default, Debug, Clone, PartialEq)]
pub struct Auth0Configuration {
    pub issuer: String,
    pub authorization_endpoint: String,
    pub token_endpoint: String,
    pub device_authorization_endpoint: String,
    pub userinfo_endpoint: String,
    pub mfa_challenge_endpoint: String,
    pub jwks_uri: String,
    pub registration_endpoint: String,
    pub revocation_endpoint: String,
    pub scopes_supported: Vec<String>,
    pub response_types_supported: Vec<String>,
    pub code_challenge_methods_supported: Vec<String>,
    pub response_modes_supported: Vec<String>,
    pub subject_types_supported: Vec<String>,
    pub id_token_signing_alg_values_supported: Vec<String>,
    pub token_endpoint_auth_methods_supported: Vec<String>,
    pub claims_supported: Vec<String>,
    pub request_uri_parameter_supported: bool,
    pub request_parameter_supported: bool,
    pub token_endpoint_auth_signing_alg_values_supported: Vec<String>,
    pub backchannel_logout_supported: bool,
    pub backchannel_logout_session_supported: bool,
    pub end_session_endpoint: String,
}

/// An authenticator for one Auth0 tenant. Its metadata is read once, when
/// it is made, and never changes; `audiences` are the audiences that it
/// accepts.
#[derive(Debug, Clone)]
pub struct Auth0 {
    pub tenant_base_uri: String,
    pub configuration: Auth0Configuration,
    pub audiences: Vec<String>,
}

/// Claims of an identity verified against an Auth0 tenant.
#[derive(Debug)]
pub struct Auth0UserData {}

/// The text of the member `key` of `doc`, where that member is a string.
pub open spec fn text_field(doc: Json, key: Seq<char>) -> Option<Seq<char>> {
    match doc.member(key) {
        Some(j) => j.as_text(),
        None => None,
    }
}

/// The texts of the member `key` of `doc`, where that member is a list of
/// strings.
pub open spec fn list_field(doc: Json, key: Seq<char>) -> Option<Seq<Seq<char>>> {
    match doc.member(key) {
        Some(j) => j.as_texts(),
        None => None,
    }
}

/// The value of the member `key` of `doc`, where that member is a
/// boolean.
pub open spec fn flag_field(doc: Json, key: Seq<char>) -> Option<bool> {
    match doc.member(key) {
        Some(j) => j.as_flag(),
        None => None,
    }
}

/// The first field of the metadata, in the order of the record, that
/// `doc` lacks or holds under another type.
pub open spec fn first_missing(doc: Json) -> Option<Seq<char>> {
    if text_field(doc, "issuer"@) is None {
        Some("issuer"@)
    } else if text_field(doc, "authorization_endpoint"@) is None {
        Some("authorization_endpoint"@)
    } else if text_field(doc, "token_endpoint"@) is None {
        Some("token_endpoint"@)
    } else if text_field(doc, "device_authorization_endpoint"@) is None {
        Some("device_authorization_endpoint"@)
    } else if text_field(doc, "userinfo_endpoint"@) is None {
        Some("userinfo_endpoint"@)
    } else if text_field(doc, "mfa_challenge_endpoint"@) is None {
        Some("mfa_challenge_endpoint"@)
    } else if text_field(doc, "jwks_uri"@) is None {
        Some("jwks_uri"@)
    } else if text_field(doc, "registration_endpoint"@) is None {
        Some("registration_endpoint"@)
    } else if text_field(doc, "revocation_endpoint"@) is None {
        Some("revocation_endpoint"@)
    } else if list_field(doc, "scopes_supported"@) is None {
        Some("scopes_supported"@)
    } else if list_field(doc, "response_types_supported"@) is None {
        Some("response_types_supported"@)
    } else if list_field(doc, "code_challenge_methods_supported"@) is None {
        Some("code_challenge_methods_supported"@)
    } else if list_field(doc, "response_modes_supported"@) is None {
        Some("response_modes_supported"@)
    } else if list_field(doc, "subject_types_supported"@) is None {
        Some("subject_types_supported"@)
    } else if list_field(doc, "id_token_signing_alg_values_supported"@) is None {
        Some("id_token_signing_alg_values_supported"@)
    } else if list_field(doc, "token_endpoint_auth_methods_supported"@) is None {
        Some("token_endpoint_auth_methods_supported"@)
    } else if list_field(doc, "claims_supported"@) is None {
        Some("claims_supported"@)
    } else if flag_field(doc, "request_uri_parameter_supported"@) is None {
        Some("request_uri_parameter_supported"@)
    } else if flag_field(doc, "request_parameter_supported"@) is None {
        Some("request_parameter_supported"@)
    } else if list_field(doc, "token_endpoint_auth_signing_alg_values_supported"@) is None {
        Some("token_endpoint_auth_signing_alg_values_supported"@)
    } else if flag_field(doc, "backchannel_logout_supported"@) is None {
        Some("backchannel_logout_supported"@)
    } else if flag_field(doc, "backchannel_logout_session_supported"@) is None {
        Some("backchannel_logout_session_supported"@)
    } else if text_field(doc, "end_session_endpoint"@) is None {
        Some("end_session_endpoint"@)
    } else {
        None
    }
}

/// Whether each field of `c` is what `doc` holds under the field's name.
pub open spec fn describes(doc: Json, c: Auth0Configuration) -> bool {
    &&& text_field(doc, "issuer"@) == Some(c.issuer@)
    &&& text_field(doc, "authorization_endpoint"@) == Some(c.authorization_endpoint@)
    &&& text_field(doc, "token_endpoint"@) == Some(c.token_endpoint@)
    &&& text_field(doc, "device_authorization_endpoint"@) == Some(c.device_authorization_endpoint@)
    &&& text_field(doc, "userinfo_endpoint"@) == Some(c.userinfo_endpoint@)
    &&& text_field(doc, "mfa_challenge_endpoint"@) == Some(c.mfa_challenge_endpoint@)
    &&& text_field(doc, "jwks_uri"@) == Some(c.jwks_uri@)
    &&& text_field(doc, "registration_endpoint"@) == Some(c.registration_endpoint@)
    &&& text_field(doc, "revocation_endpoint"@) == Some(c.revocation_endpoint@)
    &&& list_field(doc, "scopes_supported"@) == Some(texts_of(c.scopes_supported@))
    &&& list_field(doc, "response_types_supported"@) == Some(texts_of(c.response_types_supported@))
    &&& list_field(doc, "code_challenge_methods_supported"@) == Some(texts_of(c.code_challenge_methods_supported@))
    &&& list_field(doc, "response_modes_supported"@) == Some(texts_of(c.response_modes_supported@))
    &&& list_field(doc, "subject_types_supported"@) == Some(texts_of(c.subject_types_supported@))
    &&& list_field(doc, "id_token_signing_alg_values_supported"@) == Some(texts_of(c.id_token_signing_alg_values_supported@))
    &&& list_field(doc, "token_endpoint_auth_methods_supported"@) == Some(texts_of(c.token_endpoint_auth_methods_supported@))
    &&& list_field(doc, "claims_supported"@) == Some(texts_of(c.claims_supported@))
    &&& flag_field(doc, "request_uri_parameter_supported"@) == Some(c.request_uri_parameter_supported)
    &&& flag_field(doc, "request_parameter_supported"@) == Some(c.request_parameter_supported)
    &&& list_field(doc, "token_endpoint_auth_signing_alg_values_supported"@) == Some(texts_of(c.token_endpoint_auth_signing_alg_values_supported@))
    &&& flag_field(doc, "backchannel_logout_supported"@) == Some(c.backchannel_logout_supported)
    &&& flag_field(doc, "backchannel_logout_session_supported"@) == Some(c.backchannel_logout_session_supported)
    &&& text_field(doc, "end_session_endpoint"@) == Some(c.end_session_endpoint@)
}

/// The reason for which a discovery gives no metadata, if it gives none:
/// the request failed, the body is no JSON, or a field is missing or of
/// the wrong type.
pub open spec fn discovery_failure(fetched: Result<Seq<char>, Seq<char>>) -> Option<Seq<char>> {
    match fetched {
        Err(m) => Some(m),
        Ok(body) => match json_of_text(body) {
            Err(m) => Some(m),
            Ok(doc) => match first_missing(doc) {
                Some(field) => Some("missing or mistyped field "@ + field),
                None => None,
            },
        },
    }
}

fn text_member(doc: &Json, key: &str) -> (r: Option<String>)
    ensures
        match r {
            Some(s) => text_field(*doc, key@) == Some(s@),
            None => text_field(*doc, key@) is None,
        },
{
    match doc.get(key) {
        Some(j) => match j.text() {
            Some(s) => Some(String::from_str(s)),
            None => None,
        },
        None => None,
    }
}

fn list_member(doc: &Json, key: &str) -> (r: Option<Vec<String>>)
    ensures
        match r {
            Some(v) => list_field(*doc, key@) == Some(texts_of(v@)),
            None => list_field(*doc, key@) is None,
        },
{
    match doc.get(key) {
        Some(j) => j.texts(),
        None => None,
    }
}

fn flag_member(doc: &Json, key: &str) -> (r: Option<bool>)
    ensures
        r == flag_field(*doc, key@),
{
    match doc.get(key) {
        Some(j) => j.flag(),
        None => None,
    }
}

impl Auth0Configuration {
    /// Reads a tenant's metadata from its discovery document. Every field
    /// is required; members that the record does not know are ignored. On
    /// failure the result names the first field that is missing or of the
    /// wrong type.
    pub fn from_json(doc: &Json) -> (r: Result<Auth0Configuration, String>)
        ensures
            match r {
                Ok(c) => first_missing(*doc) is None && describes(*doc, c),
                Err(field) => first_missing(*doc) == Some(field@),
            },
    {
        let issuer = match text_member(doc, "issuer") {
            Some(v) => v,
            None => {
                return Err(String::from_str("issuer"));
            },
        };
        let authorization_endpoint = match text_member(doc, "authorization_endpoint") {
            Some(v) => v,
            None => {
                return Err(String::from_str("authorization_endpoint"));
            },
        };
        let token_endpoint = match text_member(doc, "token_endpoint") {
            Some(v) => v,
            None => {
                return Err(String::from_str("token_endpoint"));
            },
        };
        let device_authorization_endpoint = match text_member(doc, "device_authorization_endpoint") {
            Some(v) => v,
            None => {
                return Err(String::from_str("device_authorization_endpoint"));
            },
        };
        let userinfo_endpoint = match text_member(doc, "userinfo_endpoint") {
            Some(v) => v,
            None => {
                return Err(String::from_str("userinfo_endpoint"));
            },
        };
        let mfa_challenge_endpoint = match text_member(doc, "mfa_challenge_endpoint") {
            Some(v) => v,
            None => {
                return Err(String::from_str("mfa_challenge_endpoint"));
            },
        };
        let jwks_uri = match text_member(doc, "jwks_uri") {
            Some(v) => v,
            None => {
                return Err(String::from_str("jwks_uri"));
            },
        };
        let registration_endpoint = match text_member(doc, "registration_endpoint") {
            Some(v) => v,
            None => {
                return Err(String::from_str("registration_endpoint"));
            },
        };
        let revocation_endpoint = match text_member(doc, "revocation_endpoint") {
            Some(v) => v,
            None => {
                return Err(String::from_str("revocation_endpoint"));
            },
        };
        let scopes_supported = match list_member(doc, "scopes_supported") {
            Some(v) => v,
            None => {
                return Err(String::from_str("scopes_supported"));
            },
        };
        let response_types_supported = match list_member(doc, "response_types_supported") {
            Some(v) => v,
            None => {
                return Err(String::from_str("response_types_supported"));
            },
        };
        let code_challenge_methods_supported = match list_member(doc, "code_challenge_methods_supported") {
            Some(v) => v,
            None => {
                return Err(String::from_str("code_challenge_methods_supported"));
            },
        };
        let response_modes_supported = match list_member(doc, "response_modes_supported") {
            Some(v) => v,
            None => {
                return Err(String::from_str("response_modes_supported"));
            },
        };
        let subject_types_supported = match list_member(doc, "subject_types_supported") {
            Some(v) => v,
            None => {
                return Err(String::from_str("subject_types_supported"));
            },
        };
        let id_token_signing_alg_values_supported = match list_member(doc, "id_token_signing_alg_values_supported") {
            Some(v) => v,
            None => {
                return Err(String::from_str("id_token_signing_alg_values_supported"));
            },
        };
        let token_endpoint_auth_methods_supported = match list_member(doc, "token_endpoint_auth_methods_supported") {
            Some(v) => v,
            None => {
                return Err(String::from_str("token_endpoint_auth_methods_supported"));
            },
        };
        let claims_supported = match list_member(doc, "claims_supported") {
            Some(v) => v,
            None => {
                return Err(String::from_str("claims_supported"));
            },
        };
        let request_uri_parameter_supported = match flag_member(doc, "request_uri_parameter_supported") {
            Some(v) => v,
            None => {
                return Err(String::from_str("request_uri_parameter_supported"));
            },
        };
        let request_parameter_supported = match flag_member(doc, "request_parameter_supported") {
            Some(v) => v,
            None => {
                return Err(String::from_str("request_parameter_supported"));
            },
        };
        let token_endpoint_auth_signing_alg_values_supported = match list_member(doc, "token_endpoint_auth_signing_alg_values_supported") {
            Some(v) => v,
            None => {
                return Err(String::from_str("token_endpoint_auth_signing_alg_values_supported"));
            },
        };
        let backchannel_logout_supported = match flag_member(doc, "backchannel_logout_supported") {
            Some(v) => v,
            None => {
                return Err(String::from_str("backchannel_logout_supported"));
            },
        };
        let backchannel_logout_session_supported = match flag_member(doc, "backchannel_logout_session_supported") {
            Some(v) => v,
            None => {
                return Err(String::from_str("backchannel_logout_session_supported"));
            },
        };
        let end_session_endpoint = match text_member(doc, "end_session_endpoint") {
            Some(v) => v,
            None => {
                return Err(String::from_str("end_session_endpoint"));
            },
        };
        Ok(
            Auth0Configuration {
                issuer,
                authorization_endpoint,
                token_endpoint,
                device_authorization_endpoint,
                userinfo_endpoint,
                mfa_challenge_endpoint,
                jwks_uri,
                registration_endpoint,
                revocation_endpoint,
                scopes_supported,
                response_types_supported,
                code_challenge_methods_supported,
                response_modes_supported,
                subject_types_supported,
                id_token_signing_alg_values_supported,
                token_endpoint_auth_methods_supported,
                claims_supported,
                request_uri_parameter_supported,
                request_parameter_supported,
                token_endpoint_auth_signing_alg_values_supported,
                backchannel_logout_supported,
                backchannel_logout_session_supported,
                end_session_endpoint,
            },
        )
    }
}

/// The address of the discovery document of the tenant at
/// `tenant_base_uri`: the base URI with the standard suffix appended.
pub fn discovery_endpoint(tenant_base_uri: &str) -> (uri: String)
    ensures
        uri@ == tenant_base_uri@ + discovery_suffix(),
{
    join2(tenant_base_uri, "/.well-known/openid-configuration")
}

/// The failure of class `kind` that this authenticator reports for
/// `cause`.
pub open spec fn failure(kind: AuthErrorKind, cause: Seq<char>) -> Outcome {
    Err(AuthErrorView { kind, authenticator: authenticator_id(), cause })
}

/// What an attempt comes to once a key is selected, given what the check
/// of signature and claims says of the token. The check counts only for a
/// key that has an adapter.
pub open spec fn key_outcome(entry: KeyEntryView, checked: Result<(), Seq<char>>) -> Outcome {
    match key_failure(authenticator_id(), entry) {
        Some(e) => Err(e),
        None => match checked {
            Ok(_) => Ok(UserData::Auth0(Auth0UserData {  })),
            Err(m) => failure(AuthErrorKind::InvalidToken, m),
        },
    }
}

/// What an attempt comes to for a token whose header names the key `kid`,
/// against the keys `keys`. A token that names no key is never accepted;
/// a key is used only if it carries exactly the identifier that the token
/// names.
pub open spec fn token_outcome(
    keys: Seq<KeyEntryView>,
    kid: Option<Seq<char>>,
    checked: Result<(), Seq<char>>,
) -> Outcome {
    match kid {
        None => failure(AuthErrorKind::InvalidToken, "Missing key id (kid) in token header"@),
        Some(id) => match resolved(keys, id) {
            None => failure(AuthErrorKind::NoMatchingKey, no_match_text(id)),
            Some(entry) => key_outcome(entry, checked),
        },
    }
}

/// What an attempt comes to, from what the key-set endpoint brought and
/// the token: first the key set must have come and be well-formed, then
/// the token's header must decode, then `token_outcome` decides.
pub open spec fn outcome(
    fetched: Result<Seq<char>, Seq<char>>,
    token: Seq<char>,
    checked: Result<(), Seq<char>>,
) -> Outcome {
    match fetched {
        Err(m) => failure(AuthErrorKind::FetchJwks, m),
        Ok(body) => match key_set_of(body) {
            Err(m) => failure(AuthErrorKind::FetchJwks, m),
            Ok(keys) => match header_of(token) {
                Err(m) => failure(AuthErrorKind::MalformedToken, m),
                Ok(kid) => token_outcome(keys, kid, checked),
            },
        },
    }
}

impl Auth0 {
    /// Makes the authenticator for the tenant at `tenant_base_uri` from
    /// what a request for the tenant's discovery document brought. Fails
    /// where the request failed, the body is no JSON, or a field of the
    /// metadata is missing or of the wrong type.
    pub fn new(tenant_base_uri: &str, audiences: Vec<String>, discovery: &Fetched) -> (r: Result<
        Auth0,
        AuthError,
    >)
        ensures
            match r {
                Ok(a) => {
                    &&& discovery_failure(fetched_text(*discovery)) is None
                    &&& a.tenant_base_uri@ == tenant_base_uri@
                    &&& a.audiences == audiences
                    &&& describes(json_of_text(discovery->Ok_0@)->Ok_0, a.configuration)
                },
                Err(e) => {
                    &&& discovery_failure(fetched_text(*discovery)) is Some
                    &&& e@ == (AuthErrorView {
                        kind: AuthErrorKind::Init,
                        authenticator: authenticator_id(),
                        cause: discovery_failure(fetched_text(*discovery))->0,
                    })
                },
            },
    {
        let body = match discovery {
            Ok(body) => body,
            Err(m) => {
                return Err(AuthError::Init(String::from_str("Auth0"), m.clone()));
            },
        };
        let doc = match Json::parse(body.as_str()) {
            Ok(doc) => doc,
            Err(m) => {
                return Err(AuthError::Init(String::from_str("Auth0"), m));
            },
        };
        match Auth0Configuration::from_json(&doc) {
            Ok(configuration) => Ok(
                Auth0 { tenant_base_uri: String::from_str(tenant_base_uri), configuration, audiences },
            ),
            Err(field) => Err(
                AuthError::Init(
                    String::from_str("Auth0"),
                    join2("missing or mistyped field ", field.as_str()),
                ),
            ),
        }
    }

    /// The address from which this tenant's signing keys are fetched.
    pub fn key_set_endpoint(&self) -> (uri: &str)
        ensures
            uri@ == self.configuration.jwks_uri@,
    {
        self.configuration.jwks_uri.as_str()
    }

    /// The part of an attempt that follows the reading of key set and
    /// header: selects the key that the header names, turns it into a
    /// verification key, and validates `token` against it under the
    /// header's algorithm and this authenticator's audiences. Everything
    /// before the validation is decided by `keys` and `header` alone.
    pub fn authenticate_against(&self, token: &str, keys: &SigningKeySet, header: &TokenHeader) -> (r:
        Result<UserData, AuthError>)
        ensures
            exists|checked: Result<(), Seq<char>>|
                outcome_of(r) == #[trigger] token_outcome(keys@, header.kid(), checked),
            token_outcome(keys@, header.kid(), Ok(())) is Err ==> outcome_of(r) == token_outcome(
                keys@,
                header.kid(),
                Ok(()),
            ),
    {
        let ghost passed: Result<(), Seq<char>> = Ok(());
        let kid = match &header.key_id {
            Some(kid) => kid,
            None => {
                let r = Err(
                    AuthError::InvalidToken(
                        String::from_str("Auth0"),
                        String::from_str("Missing key id (kid) in token header"),
                    ),
                );
                assert(outcome_of(r) == token_outcome(keys@, header.kid(), passed));
                return r;
            },
        };
        let entry = match keys.resolve("Auth0", kid.as_str()) {
            Ok(entry) => entry,
            Err(e) => {
                let r = Err(e);
                assert(outcome_of(r) == token_outcome(keys@, header.kid(), passed));
                return r;
            },
        };
        let key = match build_verification_key("Auth0", entry) {
            Ok(key) => key,
            Err(e) => {
                let r = Err(e);
                assert(outcome_of(r) == token_outcome(keys@, header.kid(), passed));
                return r;
            },
        };
        match validate("Auth0", token, &key, header.algorithm, &self.audiences) {
            Ok(_) => {
                let r = Ok(UserData::Auth0(Auth0UserData {  }));
                assert(outcome_of(r) == token_outcome(keys@, header.kid(), passed));
                r
            },
            Err(e) => {
                let ghost failed: Result<(), Seq<char>> = Err(e@.cause);
                let r = Err(e);
                assert(outcome_of(r) == token_outcome(keys@, header.kid(), failed));
                r
            },
        }
    }
}

impl Authenticator for Auth0 {
    /// The admitted outcomes are those of `outcome`, for whatever the
    /// check of signature and claims may say.
    open spec fn admits(&self, token: Seq<char>, keys: Result<Seq<char>, Seq<char>>, o: Outcome) -> bool {
        exists|checked: Result<(), Seq<char>>| o == #[trigger] outcome(keys, token, checked)
    }

    /// Verifies `token` against the key set that `keys` brought. Every
    /// step before the check of signature and claims is decided by the
    /// inputs alone; the check itself also depends on the time of the
    /// call, so the result is the outcome for what the check said.
    fn authenticate(&self, token: &str, keys: &Fetched) -> (r: Result<UserData, AuthError>)
        ensures
            outcome(fetched_text(*keys), token@, Ok(())) is Err ==> outcome_of(r) == outcome(
                fetched_text(*keys),
                token@,
                Ok(()),
            ),
    {
        let ghost f = fetched_text(*keys);
        let ghost passed: Result<(), Seq<char>> = Ok(());
        let body = match keys {
            Ok(body) => body,
            Err(m) => {
                let r = Err(AuthError::FetchJwks(String::from_str("Auth0"), m.clone()));
                assert(outcome_of(r) == outcome(f, token@, passed));
                return r;
            },
        };
        let set = match SigningKeySet::from_json(body.as_str()) {
            Ok(set) => set,
            Err(m) => {
                let r = Err(AuthError::FetchJwks(String::from_str("Auth0"), m));
                assert(outcome_of(r) == outcome(f, token@, passed));
                return r;
            },
        };
        let header = match decode_token_header("Auth0", token) {
            Ok(header) => header,
            Err(e) => {
                let r = Err(e);
                assert(outcome_of(r) == outcome(f, token@, passed));
                return r;
            },
        };
        let r = self.authenticate_against(token, &set, &header);
        proof {
            let checked = choose|checked: Result<(), Seq<char>>|
                outcome_of(r) == #[trigger] token_outcome(set@, header.kid(), checked);
            assert(outcome_of(r) == outcome(f, token@, checked));
        }
        r
    }
}

/// A token whose header names no key is invalid, whatever the key set
/// holds and whatever a check of its signature would say.
pub proof fn law_token_without_key_id_is_invalid(
    keys: Seq<KeyEntryView>,
    checked: Result<(), Seq<char>>,
)
    ensures
        token_outcome(keys, None, checked) == failure(
            AuthErrorKind::InvalidToken,
            "Missing key id (kid) in token header"@,
        ),
{
}

/// Against a key set none of whose keys carries the identifier that the
/// token names, the attempt fails for want of a matching key.
pub proof fn law_unknown_key_id_has_no_match(
    keys: Seq<KeyEntryView>,
    kid: Seq<char>,
    checked: Result<(), Seq<char>>,
)
    requires
        forall|i: int| 0 <= i < keys.len() ==> (#[trigger] keys[i]).key_id != Some(kid),
    ensures
        token_outcome(keys, Some(kid), checked) == failure(
            AuthErrorKind::NoMatchingKey,
            no_match_text(kid),
        ),
{
    crate::keys::lemma_no_match_resolves_nothing(keys, kid);
}

/// A key of a family other than RSA is refused under its family's name,
/// and what a check of the signature would say has no part in it.
pub proof fn law_other_family_is_unimplemented(entry: KeyEntryView, checked: Result<(), Seq<char>>)
    requires
        entry.material.family() != crate::keys::KeyFamily::Rsa,
    ensures
        key_outcome(entry, checked) == failure(
            AuthErrorKind::UnimplementedAlgorithm,
            crate::keys::family_name(entry.material.family()),
        ),
        key_outcome(entry, checked) == key_outcome(entry, Ok(())),
{
}

/// The same, for a whole attempt: where the key that the token names is
/// of a family other than RSA, the attempt ends as unimplemented.
pub proof fn law_selected_other_family_is_unimplemented(
    keys: Seq<KeyEntryView>,
    kid: Seq<char>,
    checked: Result<(), Seq<char>>,
)
    requires
        resolved(keys, kid) is Some,
        resolved(keys, kid)->0.material.family() != crate::keys::KeyFamily::Rsa,
    ensures
        token_outcome(keys, Some(kid), checked) == failure(
            AuthErrorKind::UnimplementedAlgorithm,
            crate::keys::family_name(resolved(keys, kid)->0.material.family()),
        ),
{
}

/// Where the token names a key of the set, that key has an adapter and
/// its components decode, and the check of signature and claims passes,
/// the attempt succeeds with an identity tagged for this provider.
pub proof fn law_checked_token_is_accepted(keys: Seq<KeyEntryView>, kid: Seq<char>)
    requires
        resolved(keys, kid) is Some,
        key_failure(authenticator_id(), resolved(keys, kid)->0) is None,
    ensures
        token_outcome(keys, Some(kid), Ok(())) == Ok::<UserData, AuthErrorView>(
            UserData::Auth0(Auth0UserData {  }),
        ),
{
}

/// Where the check of signature and claims fails, as it does for an
/// expired token, the token is invalid, with the check's message.
pub proof fn law_failed_check_is_invalid(keys: Seq<KeyEntryView>, kid: Seq<char>, message: Seq<char>)
    requires
        resolved(keys, kid) is Some,
        key_failure(authenticator_id(), resolved(keys, kid)->0) is None,
    ensures
        token_outcome(keys, Some(kid), Err(message)) == failure(
            AuthErrorKind::InvalidToken,
            message,
        ),
{
}

} // verus!
