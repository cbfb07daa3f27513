//! Small enumerations that the service's records use.

use vstd::prelude::*;
use crate::text::{lowercase, lowercase_of, same_text};

verus! {

/// The algorithm under which a password is hashed.
#[derive(Debug, Clone, Copy, PartialEq, Eq, Structural)]
pub enum HashAlgorithm {
    Argon2,
    Bcrypt,
}

/// Where assets are kept.
#[derive(Debug, Clone, Copy, PartialEq, Eq, Structural)]
pub enum AssetBackend {
    Fs,
    Aws,
    Gcp,
    Azure,
}

/// Who may see an asset.
#[derive(Debug, Clone, Copy, PartialEq, Eq, Structural)]
pub enum AssetVisibility {
    Public,
    Private,
}

/// Who vouches for an account.
#[derive(Debug, Clone, Copy, PartialEq, Eq, Structural)]
pub enum AuthMethod {
    FirstParty,
    ThirdParty,
}

/// The backend that a name in lower case selects: a name of one of the
/// three cloud stores selects that store, and every other text selects the
/// file system.
pub open spec fn asset_backend_named(lower: Seq<char>) -> AssetBackend {
    if lower == "aws"@ || lower == "amazon"@ || lower == "s3"@ {
        AssetBackend::Aws
    } else if lower == "gcp"@ || lower == "google"@ || lower == "gcs"@ {
        AssetBackend::Gcp
    } else if lower == "azure"@ {
        AssetBackend::Azure
    } else {
        AssetBackend::Fs
    }
}

impl AssetBackend {
    /// The backend that `lower`, a name in lower case, selects.
    pub fn from_lowercase(lower: &str) -> (backend: AssetBackend)
        ensures
            backend == asset_backend_named(lower@),
    {
        if same_text(lower, "aws") || same_text(lower, "amazon") || same_text(lower, "s3") {
            AssetBackend::Aws
        } else if same_text(lower, "gcp") || same_text(lower, "google") || same_text(lower, "gcs") {
            AssetBackend::Gcp
        } else if same_text(lower, "azure") {
            AssetBackend::Azure
        } else {
            AssetBackend::Fs
        }
    }

    /// The backend that `name` selects, whatever the case of its letters.
    pub fn from_name(name: &str) -> (backend: AssetBackend)
        ensures
            backend == asset_backend_named(lowercase_of(name@)),
    {
        let lower = lowercase(name);
        AssetBackend::from_lowercase(lower.as_str())
    }
}

} // verus!
