//! A provider's signing keys: the key set, the choice of the key that a
//! token names, and the step from a key to what verifies a signature.

use vstd::prelude::*;
use vstd::string::*;
use crate::errors::{AuthError, AuthErrorKind, AuthErrorView};
use crate::text::{join3, same_text};

verus! {

/// The family of a signing key.
#[derive(Clone, Copy, Debug, PartialEq, Eq, Structural)]
pub enum KeyFamily {
    Rsa,
    EllipticCurve,
    OctetSymmetric,
    OctetKeyPair,
}

/// The public material of a signing key, as far as a family is supported:
/// for RSA the modulus and the exponent, each in URL-safe base64 without
/// padding.
#[derive(Debug)]
pub enum KeyMaterial {
    Rsa { modulus: String, exponent: String },
    EllipticCurve,
    OctetKey,
    OctetKeyPair,
}

/// One key of a key set.
#[derive(Debug)]
pub struct SigningKeyEntry {
    pub key_id: Option<String>,
    pub material: KeyMaterial,
}

/// The keys that a provider currently signs with, in the order in which
/// the provider lists them.
#[derive(Debug)]
pub struct SigningKeySet {
    pub keys: Vec<SigningKeyEntry>,
}

pub enum KeyMaterialView {
    Rsa { modulus: Seq<char>, exponent: Seq<char> },
    EllipticCurve,
    OctetKey,
    OctetKeyPair,
}

pub struct KeyEntryView {
    pub key_id: Option<Seq<char>>,
    pub material: KeyMaterialView,
}

impl KeyMaterialView {
    pub open spec fn family(self) -> KeyFamily {
        match self {
            KeyMaterialView::Rsa { .. } => KeyFamily::Rsa,
            KeyMaterialView::EllipticCurve => KeyFamily::EllipticCurve,
            KeyMaterialView::OctetKey => KeyFamily::OctetSymmetric,
            KeyMaterialView::OctetKeyPair => KeyFamily::OctetKeyPair,
        }
    }
}

impl View for KeyMaterial {
    type V = KeyMaterialView;

    open spec fn view(&self) -> KeyMaterialView {
        match *self {
            KeyMaterial::Rsa { modulus, exponent } => KeyMaterialView::Rsa {
                modulus: modulus@,
                exponent: exponent@,
            },
            KeyMaterial::EllipticCurve => KeyMaterialView::EllipticCurve,
            KeyMaterial::OctetKey => KeyMaterialView::OctetKey,
            KeyMaterial::OctetKeyPair => KeyMaterialView::OctetKeyPair,
        }
    }
}

impl View for SigningKeyEntry {
    type V = KeyEntryView;

    open spec fn view(&self) -> KeyEntryView {
        KeyEntryView {
            key_id: match self.key_id {
                Some(id) => Some(id@),
                None => None,
            },
            material: self.material@,
        }
    }
}

impl View for SigningKeySet {
    type V = Seq<KeyEntryView>;

    open spec fn view(&self) -> Seq<KeyEntryView> {
        self.keys@.map_values(|e: SigningKeyEntry| e@)
    }
}

/// What parsing the text `body` as a JSON Web Key Set gives: the keys in
/// the document's order, or the parser's message.
pub uninterp spec fn key_set_of(body: Seq<char>) -> Result<Seq<KeyEntryView>, Seq<char>>;

/// Parses a JSON Web Key Set with `serde_json::from_str`, at the type
/// `jsonwebtoken::jwk::JwkSet`, and copies of each key its identifier and,
/// for an RSA key, modulus and exponent. Trusted: the result is the one
/// that `key_set_of` names for this text; on failure it is the parser's
/// message.
#[verifier::external_body]
fn parse_jwk_set(body: &str) -> (r: Result<SigningKeySet, String>)
    ensures
        key_set_of(body@) == match r {
            Ok(set) => Ok::<Seq<KeyEntryView>, Seq<char>>(set@),
            Err(m) => Err::<Seq<KeyEntryView>, Seq<char>>(m@),
        },
{
    let set: jsonwebtoken::jwk::JwkSet = serde_json::from_str(body).map_err(|e| e.to_string())?;
    Ok(SigningKeySet { keys: set.keys.into_iter().map(|k| SigningKeyEntry {
        key_id: k.common.key_id,
        material: match k.algorithm {
            jsonwebtoken::jwk::AlgorithmParameters::RSA(r) => KeyMaterial::Rsa { modulus: r.n, exponent: r.e },
            jsonwebtoken::jwk::AlgorithmParameters::EllipticCurve(_) => KeyMaterial::EllipticCurve,
            jsonwebtoken::jwk::AlgorithmParameters::OctetKey(_) => KeyMaterial::OctetKey,
            jsonwebtoken::jwk::AlgorithmParameters::OctetKeyPair(_) => KeyMaterial::OctetKeyPair,
        },
    }).collect() })
}

/// The first key of `keys` whose identifier is `kid`, if there is one. A
/// key without an identifier matches nothing.
pub open spec fn resolved(keys: Seq<KeyEntryView>, kid: Seq<char>) -> Option<KeyEntryView>
    decreases keys.len(),
{
    if keys.len() == 0 {
        None
    } else if keys[0].key_id == Some(kid) {
        Some(keys[0])
    } else {
        resolved(keys.subrange(1, keys.len() as int), kid)
    }
}

/// `resolved` by position: it yields the key at the least index whose
/// identifier is `kid`, and nothing exactly when no key has that
/// identifier.
pub proof fn lemma_resolved_is_first_match(keys: Seq<KeyEntryView>, kid: Seq<char>)
    ensures
        match resolved(keys, kid) {
            Some(e) => exists|i: int|
                0 <= i < keys.len() && keys[i] == e && e.key_id == Some(kid) && forall|j: int|
                    0 <= j < i ==> (#[trigger] keys[j]).key_id != Some(kid),
            None => forall|i: int| 0 <= i < keys.len() ==> (#[trigger] keys[i]).key_id != Some(kid),
        },
    decreases keys.len(),
{
    if keys.len() == 0 {
    } else if keys[0].key_id == Some(kid) {
        assert(keys[0] == resolved(keys, kid)->0);
    } else {
        let rest = keys.subrange(1, keys.len() as int);
        lemma_resolved_is_first_match(rest, kid);
        assert(forall|i: int| 0 <= i < rest.len() ==> rest[i] == keys[i + 1]);
        match resolved(rest, kid) {
            Some(e) => {
                let i = choose|i: int|
                    0 <= i < rest.len() && rest[i] == e && e.key_id == Some(kid) && forall|j: int|
                        0 <= j < i ==> (#[trigger] rest[j]).key_id != Some(kid);
                assert forall|j: int| 0 <= j < i + 1 implies (#[trigger] keys[j]).key_id != Some(
                    kid,
                ) by {
                    if j > 0 {
                        assert(rest[j - 1] == keys[j]);
                    }
                }
                assert(keys[i + 1] == e);
            },
            None => {
                assert forall|i: int| 0 <= i < keys.len() implies (#[trigger] keys[i]).key_id
                    != Some(kid) by {
                    if i > 0 {
                        assert(rest[i - 1] == keys[i]);
                    }
                }
            },
        }
    }
}

/// A key is only ever selected for the identifier that it carries: what
/// `resolved` yields is a key of the set whose identifier is exactly
/// `kid`.
pub proof fn lemma_resolved_key_matches(keys: Seq<KeyEntryView>, kid: Seq<char>)
    requires
        resolved(keys, kid) is Some,
    ensures
        resolved(keys, kid)->0.key_id == Some(kid),
        keys.contains(resolved(keys, kid)->0),
{
    lemma_resolved_is_first_match(keys, kid);
}

/// Where no key of the set carries the identifier `kid`, nothing is
/// selected, whatever else the set holds.
pub proof fn lemma_no_match_resolves_nothing(keys: Seq<KeyEntryView>, kid: Seq<char>)
    requires
        forall|i: int| 0 <= i < keys.len() ==> (#[trigger] keys[i]).key_id != Some(kid),
    ensures
        resolved(keys, kid) is None,
{
    lemma_resolved_is_first_match(keys, kid);
}

/// The name under which a key family without an adapter is reported.
pub open spec fn family_name(family: KeyFamily) -> Seq<char> {
    match family {
        KeyFamily::Rsa => "rsa"@,
        KeyFamily::EllipticCurve => "elliptic curve"@,
        KeyFamily::OctetSymmetric => "octet key"@,
        KeyFamily::OctetKeyPair => "octet key pair"@,
    }
}

/// The text that reports that no key carries the identifier `kid`.
pub open spec fn no_match_text(kid: Seq<char>) -> Seq<char> {
    "no jwk with key id "@ + kid + " found"@
}

impl KeyMaterial {
    /// The family of this key.
    pub fn family(&self) -> (f: KeyFamily)
        ensures
            f == self@.family(),
    {
        match self {
            KeyMaterial::Rsa { .. } => KeyFamily::Rsa,
            KeyMaterial::EllipticCurve => KeyFamily::EllipticCurve,
            KeyMaterial::OctetKey => KeyFamily::OctetSymmetric,
            KeyMaterial::OctetKeyPair => KeyFamily::OctetKeyPair,
        }
    }
}

impl SigningKeyEntry {
    /// Whether this key carries the identifier `kid`.
    pub fn has_id(&self, kid: &str) -> (r: bool)
        ensures
            r == (self@.key_id == Some(kid@)),
    {
        match &self.key_id {
            Some(id) => same_text(id.as_str(), kid),
            None => false,
        }
    }
}

impl SigningKeySet {
    /// Reads a key set from the body of a key-set document. Fails with the
    /// parser's message where the text is no JSON Web Key Set.
    pub fn from_json(body: &str) -> (r: Result<SigningKeySet, String>)
        ensures
            key_set_of(body@) == match r {
                Ok(set) => Ok::<Seq<KeyEntryView>, Seq<char>>(set@),
                Err(m) => Err::<Seq<KeyEntryView>, Seq<char>>(m@),
            },
    {
        parse_jwk_set(body)
    }

    /// The number of keys in the set.
    pub fn len(&self) -> (n: usize)
        ensures
            n == self@.len(),
    {
        self.keys.len()
    }

    /// Selects the key that carries the identifier `kid`: the first such
    /// key of the set, and none where no key carries it. There is no
    /// fallback to any other key.
    pub fn find(&self, kid: &str) -> (r: Option<&SigningKeyEntry>)
        ensures
            match r {
                Some(e) => resolved(self@, kid@) == Some(e@),
                None => resolved(self@, kid@) is None,
            },
    {
        let n: usize = self.keys.len();
        let mut i: usize = 0;
        assert(self@.subrange(0, n as int) =~= self@);
        while i < n
            invariant
                n == self.keys.len(),
                i <= n,
                resolved(self@, kid@) == resolved(self@.subrange(i as int, n as int), kid@),
            decreases n - i,
        {
            let entry = &self.keys[i];
            let ghost tail = self@.subrange(i as int, n as int);
            assert(tail[0] == entry@);
            if entry.has_id(kid) {
                return Some(entry);
            }
            assert(tail.subrange(1, tail.len() as int) =~= self@.subrange(i + 1, n as int));
            i = i + 1;
        }
        assert(self@.subrange(n as int, n as int).len() == 0);
        None
    }

    /// Selects the key for `kid`, or reports for `authenticator` that the
    /// set holds none.
    pub fn resolve(&self, authenticator: &str, kid: &str) -> (r: Result<&SigningKeyEntry, AuthError>)
        ensures
            match r {
                Ok(e) => resolved(self@, kid@) == Some(e@),
                Err(e) => resolved(self@, kid@) is None && e@ == (AuthErrorView {
                    kind: AuthErrorKind::NoMatchingKey,
                    authenticator: authenticator@,
                    cause: no_match_text(kid@),
                }),
            },
    {
        match self.find(kid) {
            Some(e) => Ok(e),
            None => Err(
                AuthError::NoMatchingKey(
                    String::from_str(authenticator),
                    join3("no jwk with key id ", kid, " found"),
                ),
            ),
        }
    }
}

} // verus!
