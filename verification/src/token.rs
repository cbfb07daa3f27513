//! Reading a token's header and validating the token against a key.

use vstd::prelude::*;
use vstd::string::*;
use crate::errors::{AuthError, AuthErrorKind, AuthErrorView};
use crate::keys::{family_name, KeyEntryView, KeyMaterial, KeyMaterialView, SigningKeyEntry};

verus! {

/// A signing algorithm, as a token's header declares it.
#[verifier::external_type_specification]
#[verifier::external_body]
pub struct ExAlgorithm(jsonwebtoken::Algorithm);

/// A key that verifies signatures.
#[verifier::external_type_specification]
#[verifier::external_body]
pub struct ExDecodingKey(jsonwebtoken::DecodingKey);

/// What the first segment of a token declares, read without trusting it.
#[derive(Debug)]
pub struct TokenHeader {
    pub key_id: Option<String>,
    pub algorithm: jsonwebtoken::Algorithm,
}

impl TokenHeader {
    /// The key identifier that the header names, if it names one.
    pub open spec fn kid(&self) -> Option<Seq<char>> {
        match self.key_id {
            Some(id) => Some(id@),
            None => None,
        }
    }
}

/// What decoding the header of the compact token `token` gives: the key
/// identifier that the header names, if any, or the decoder's message
/// where the token has no header that can be read.
pub uninterp spec fn header_of(token: Seq<char>) -> Result<Option<Seq<char>>, Seq<char>>;

/// Why modulus and exponent, as text, give no RSA key, if they give none.
pub uninterp spec fn rsa_key_error(modulus: Seq<char>, exponent: Seq<char>) -> Option<Seq<char>>;

/// Decodes a token's header with `jsonwebtoken::decode_header` and keeps
/// its key identifier and algorithm. Trusted: the key identifier, or on
/// failure the decoder's message, is what `header_of` names for this
/// token.
#[verifier::external_body]
fn read_header(token: &str) -> (r: Result<TokenHeader, String>)
    ensures
        header_of(token@) == match r {
            Ok(h) => Ok::<Option<Seq<char>>, Seq<char>>(h.kid()),
            Err(m) => Err::<Option<Seq<char>>, Seq<char>>(m@),
        },
{
    let header = jsonwebtoken::decode_header(token).map_err(|e| e.to_string())?;
    Ok(TokenHeader { key_id: header.kid, algorithm: header.alg })
}

/// Builds a verification key with
/// `jsonwebtoken::DecodingKey::from_rsa_components`. Trusted: it fails
/// exactly where `rsa_key_error` names a message for the two components,
/// and then with that message.
#[verifier::external_body]
fn rsa_decoding_key(modulus: &str, exponent: &str) -> (r: Result<jsonwebtoken::DecodingKey, String>)
    ensures
        rsa_key_error(modulus@, exponent@) == match r {
            Ok(_) => None::<Seq<char>>,
            Err(m) => Some(m@),
        },
{
    jsonwebtoken::DecodingKey::from_rsa_components(modulus, exponent).map_err(|e| e.to_string())
}

/// Verifies signature and claims with `jsonwebtoken::decode`, under a
/// `jsonwebtoken::Validation` made for `algorithm` alone, on which expiry
/// is checked, `validate_nbf` is `not_before`, `validate_aud` is
/// `audience`, and the accepted audiences are `audiences`. The claims are
/// dropped; a failure is given by its message. Whether a token passes
/// depends on the time of the call, so nothing is claimed of that.
/// Trusted is one thing that holds at every time: `decode` splits the
/// token and decodes its header in the same way as `decode_header` does,
/// before it looks at signature or claims, so a token for which
/// `header_of` names a failure does not pass. The call reads the system's
/// clock and expects it to stand after the Unix epoch.
#[verifier::external_body]
fn check_signature_and_claims(
    token: &str,
    key: &jsonwebtoken::DecodingKey,
    algorithm: jsonwebtoken::Algorithm,
    not_before: bool,
    audience: bool,
    audiences: &Vec<String>,
) -> (r: Result<(), String>)
    ensures
        header_of(token@) is Err ==> r is Err,
{
    let mut validation = jsonwebtoken::Validation::new(algorithm);
    validation.validate_nbf = not_before;
    validation.validate_aud = audience;
    validation.set_audience(audiences);
    jsonwebtoken::decode::<serde_json::Value>(token, key, &validation).map(|_| ()).map_err(
        |e| e.to_string(),
    )
}

/// Which claims a validation checks besides the expiry, which it always
/// checks.
#[derive(Clone, Copy, Debug, PartialEq, Eq, Structural)]
pub struct ClaimChecks {
    /// A token that is not valid yet is refused.
    pub not_before: bool,
    /// A token that names an audience must name an accepted one.
    pub audience: bool,
}

/// The checks for a configured list of audiences: the audience is checked
/// unless no audience was configured.
pub fn claim_checks(audiences: &Vec<String>) -> (c: ClaimChecks)
    ensures
        c.not_before,
        c.audience == (audiences@.len() > 0),
{
    ClaimChecks { not_before: true, audience: audiences.len() > 0 }
}

/// Decodes the header of `token` without verifying anything. A token
/// whose structure cannot be decoded is reported as malformed.
pub fn decode_token_header(authenticator: &str, token: &str) -> (r: Result<TokenHeader, AuthError>)
    ensures
        match r {
            Ok(h) => header_of(token@) == Ok::<Option<Seq<char>>, Seq<char>>(h.kid()),
            Err(e) => header_of(token@) is Err && e@ == (AuthErrorView {
                kind: AuthErrorKind::MalformedToken,
                authenticator: authenticator@,
                cause: header_of(token@)->Err_0,
            }),
        },
{
    match read_header(token) {
        Ok(h) => Ok(h),
        Err(m) => Err(AuthError::MalformedToken(String::from_str(authenticator), m)),
    }
}

/// What a key gives before any signature is looked at: nothing to object
/// to, or the failure that ends the attempt. A key of a family other than
/// RSA is refused under the family's name; an RSA key whose components
/// cannot be decoded makes the token invalid.
pub open spec fn key_failure(authenticator: Seq<char>, entry: KeyEntryView) -> Option<AuthErrorView> {
    match entry.material {
        KeyMaterialView::Rsa { modulus, exponent } => match rsa_key_error(modulus, exponent) {
            Some(m) => Some(
                AuthErrorView { kind: AuthErrorKind::InvalidToken, authenticator, cause: m },
            ),
            None => None,
        },
        _ => Some(
            AuthErrorView {
                kind: AuthErrorKind::UnimplementedAlgorithm,
                authenticator,
                cause: family_name(entry.material.family()),
            },
        ),
    }
}

/// Turns a selected key into a verification key. Only an RSA key has an
/// adapter; every other family fails at once.
pub fn build_verification_key(authenticator: &str, entry: &SigningKeyEntry) -> (r: Result<
    jsonwebtoken::DecodingKey,
    AuthError,
>)
    ensures
        match r {
            Ok(_) => key_failure(authenticator@, entry@) is None,
            Err(e) => key_failure(authenticator@, entry@) == Some(e@),
        },
{
    match &entry.material {
        KeyMaterial::Rsa { modulus, exponent } => {
            match rsa_decoding_key(modulus.as_str(), exponent.as_str()) {
                Ok(key) => Ok(key),
                Err(m) => Err(AuthError::InvalidToken(String::from_str(authenticator), m)),
            }
        },
        KeyMaterial::EllipticCurve => Err(
            AuthError::UnimplementedAlgorithm(
                String::from_str(authenticator),
                String::from_str("elliptic curve"),
            ),
        ),
        KeyMaterial::OctetKey => Err(
            AuthError::UnimplementedAlgorithm(
                String::from_str(authenticator),
                String::from_str("octet key"),
            ),
        ),
        KeyMaterial::OctetKeyPair => Err(
            AuthError::UnimplementedAlgorithm(
                String::from_str(authenticator),
                String::from_str("octet key pair"),
            ),
        ),
    }
}

/// What a validation comes to, given what the check of signature and
/// claims said: success, or an invalid token with the check's message.
pub open spec fn verdict_of(authenticator: Seq<char>, checked: Result<(), Seq<char>>) -> Result<
    (),
    AuthErrorView,
> {
    match checked {
        Ok(_) => Ok(()),
        Err(m) => Err(AuthErrorView { kind: AuthErrorKind::InvalidToken, authenticator, cause: m }),
    }
}

/// Concludes a validation from the outcome of the check of signature and
/// claims. There is no partial success.
pub fn verdict(authenticator: &str, checked: Result<(), String>) -> (r: Result<(), AuthError>)
    ensures
        match checked {
            Ok(_) => r is Ok,
            Err(m) => r is Err && r->Err_0@ == (AuthErrorView {
                kind: AuthErrorKind::InvalidToken,
                authenticator: authenticator@,
                cause: m@,
            }),
        },
{
    match checked {
        Ok(_) => Ok(()),
        Err(m) => Err(AuthError::InvalidToken(String::from_str(authenticator), m)),
    }
}

/// Validates `token` against `key`: the signature under `algorithm`, as
/// the header declared it, then the expiry, the time from which the token
/// is valid, and, where audiences are configured, the audience. A token
/// whose header cannot be decoded never passes. For any other token,
/// whether it passes is decided by the signature and by the time of the
/// call. A token that does not pass is invalid, under this authenticator's
/// name.
pub fn validate(
    authenticator: &str,
    token: &str,
    key: &jsonwebtoken::DecodingKey,
    algorithm: jsonwebtoken::Algorithm,
    audiences: &Vec<String>,
) -> (r: Result<(), AuthError>)
    ensures
        header_of(token@) is Err ==> r is Err,
        r is Err ==> r->Err_0@.kind == AuthErrorKind::InvalidToken && r->Err_0@.authenticator
            == authenticator@,
{
    let checks = claim_checks(audiences);
    let checked = check_signature_and_claims(
        token,
        key,
        algorithm,
        checks.not_before,
        checks.audience,
        audiences,
    );
    verdict(authenticator, checked)
}

} // verus!
