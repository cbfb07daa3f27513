//! The configuration that every request handler is given.

use vstd::prelude::*;
use vstd::string::*;
use crate::launch::LaunchMode;
use crate::text::{ascii_words, ascii_words_of, lowercase_of, same_text, texts_of};
use crate::types::{asset_backend_named, AssetBackend};

verus! {

/// The service's configuration; it does not change once it is made.
#[derive(Debug, Clone)]
pub struct Config {
    pub name: String,
    pub secret: Vec<u8>,
    pub launch_mode: LaunchMode,
    pub asset_backend: AssetBackend,
}

impl Config {
    pub fn new(name: &str, secret: Vec<u8>, launch_mode: LaunchMode, asset_backend: AssetBackend) -> (c:
        Config)
        ensures
            c.name@ == name@,
            c.secret == secret,
            c.launch_mode == launch_mode,
            c.asset_backend == asset_backend,
    {
        Config { name: String::from_str(name), secret, launch_mode, asset_backend }
    }
}

/// Makes the configuration from the four settings as they are written:
/// the secret is the bytes of its text, the launch mode and the asset
/// backend are the ones that their names select.
pub fn build_config(name: &str, secret: &str, launch_mode: &str, asset_backend: &str) -> (c: Config)
    ensures
        c.name@ == name@,
        c.secret@ == secret.spec_bytes(),
        c.launch_mode == crate::launch::launch_mode_named(launch_mode@),
        c.asset_backend == asset_backend_named(lowercase_of(asset_backend@)),
{
    Config::new(
        name,
        secret.as_bytes_vec(),
        LaunchMode::from_name(launch_mode),
        AssetBackend::from_name(asset_backend),
    )
}

/// The authenticators that the service can be set up with.
#[derive(Debug, Clone, Copy, PartialEq, Eq, Structural)]
pub enum AuthProvider {
    Auth0,
    NoOp,
}

/// The provider that a name selects, if it selects one.
pub open spec fn auth_provider_named(name: Seq<char>) -> Option<AuthProvider> {
    if name == "auth0"@ {
        Some(AuthProvider::Auth0)
    } else if name == "noop"@ {
        Some(AuthProvider::NoOp)
    } else {
        None
    }
}

impl AuthProvider {
    /// The provider that `name` selects; none for a name that is not
    /// known.
    pub fn from_name(name: &str) -> (p: Option<AuthProvider>)
        ensures
            p == auth_provider_named(name@),
    {
        if same_text(name, "auth0") {
            Some(AuthProvider::Auth0)
        } else if same_text(name, "noop") {
            Some(AuthProvider::NoOp)
        } else {
            None
        }
    }
}

/// The audiences that a setting lists: its words, in order.
pub fn audiences_of(setting: &str) -> (audiences: Vec<String>)
    ensures
        texts_of(audiences@) == ascii_words_of(setting@),
{
    ascii_words(setting)
}

} // verus!
