//! How the service is launched, and what can go wrong while it starts.

use vstd::prelude::*;
use vstd::string::*;
use crate::text::{join2, join4, same_text};

verus! {

/// The mode in which the service runs.
#[derive(Debug, PartialEq, Eq, Clone, Copy, Structural)]
pub enum LaunchMode {
    Development,
    Testing,
    Staging,
    Production,
}

/// The name under which a mode is written.
pub open spec fn launch_mode_name(mode: LaunchMode) -> Seq<char> {
    match mode {
        LaunchMode::Development => "development"@,
        LaunchMode::Testing => "testing"@,
        LaunchMode::Staging => "staging"@,
        LaunchMode::Production => "production"@,
    }
}

/// The mode that a name selects: one of the three names of a mode short
/// of production selects that mode, and every other text selects
/// production.
pub open spec fn launch_mode_named(name: Seq<char>) -> LaunchMode {
    if name == "development"@ {
        LaunchMode::Development
    } else if name == "testing"@ {
        LaunchMode::Testing
    } else if name == "staging"@ {
        LaunchMode::Staging
    } else {
        LaunchMode::Production
    }
}

impl LaunchMode {
    /// The name of this mode.
    pub fn name(&self) -> (n: &'static str)
        ensures
            n@ == launch_mode_name(*self),
    {
        match self {
            LaunchMode::Development => "development",
            LaunchMode::Testing => "testing",
            LaunchMode::Staging => "staging",
            LaunchMode::Production => "production",
        }
    }

    /// The mode that `name` selects.
    pub fn from_name(name: &str) -> (mode: LaunchMode)
        ensures
            mode == launch_mode_named(name@),
    {
        if same_text(name, "development") {
            LaunchMode::Development
        } else if same_text(name, "testing") {
            LaunchMode::Testing
        } else if same_text(name, "staging") {
            LaunchMode::Staging
        } else {
            LaunchMode::Production
        }
    }
}

/// A mode's name selects that mode again.
pub proof fn law_launch_mode_name_round_trip(mode: LaunchMode)
    ensures
        launch_mode_named(launch_mode_name(mode)) == mode,
{
    reveal_strlit("development");
    reveal_strlit("testing");
    reveal_strlit("staging");
    reveal_strlit("production");
    assert("development"@.len() == 11);
    assert("testing"@.len() == 7);
    assert("staging"@.len() == 7);
    assert("production"@.len() == 10);
    assert("testing"@[0] == 't');
    assert("staging"@[0] == 's');
}

/// A failure that stops the service from starting.
#[derive(Debug, PartialEq, Eq)]
pub enum LaunchError {
    InvalidSecret(String),
    InvalidDatabaseUrl(String),
    InvalidCacheUrl(String),
    InvalidOpenAIApiKey(String),
    InitSql(String),
    InitCache(String),
    InvalidSessionInterface(String),
    InvalidName(String),
    InvalidAssetBackend(String),
    LoadEnvironment(String),
    Migrate(String),
    InvalidAuthProvider(String, String),
    InvalidAuth0Tenant(String),
    InitAuth(String, String),
    Internal(String),
}

/// The text of a failure.
pub open spec fn launch_error_text(e: LaunchError) -> Seq<char> {
    match e {
        LaunchError::InvalidSecret(a) => "invalid or missing app secret. error: "@ + a@,
        LaunchError::InvalidDatabaseUrl(a) => "invalid or missing database url. error: "@ + a@,
        LaunchError::InvalidCacheUrl(a) => "invalid or missing cache url. error: "@ + a@,
        LaunchError::InvalidOpenAIApiKey(a) => "invalid or missing openai api key. error: "@ + a@,
        LaunchError::InitSql(a) => "error initializing database connection pool. error: "@ + a@,
        LaunchError::InitCache(a) => "error initializing cache pool. error: "@ + a@,
        LaunchError::InvalidSessionInterface(a) => "invalid or missing session interface. error: "@ + a@,
        LaunchError::InvalidName(a) => "invalid or missing app name. error: "@ + a@,
        LaunchError::InvalidAssetBackend(a) => "invalid or missing asset backend. error: "@ + a@,
        LaunchError::LoadEnvironment(a) => "could not load environment variables. error: "@ + a@,
        LaunchError::Migrate(a) => "could not run database migrations. error: "@ + a@,
        LaunchError::InvalidAuthProvider(a, b) => "invalid authentication provider "@ + a@ + ". error: "@ + b@,
        LaunchError::InvalidAuth0Tenant(a) => "invalid auth0 tenant. error: "@ + a@,
        LaunchError::InitAuth(a, b) => "error initializing "@ + a@ + " authentication provider. error: "@ + b@,
        LaunchError::Internal(a) => "unknown internal server failure. error: "@ + a@,
    }
}

impl LaunchError {
    /// The failure as one line of text.
    pub fn message(&self) -> (m: String)
        ensures
            m@ == launch_error_text(*self),
    {
        match self {
            LaunchError::InvalidSecret(a) => join2("invalid or missing app secret. error: ", a.as_str()),
            LaunchError::InvalidDatabaseUrl(a) => join2("invalid or missing database url. error: ", a.as_str()),
            LaunchError::InvalidCacheUrl(a) => join2("invalid or missing cache url. error: ", a.as_str()),
            LaunchError::InvalidOpenAIApiKey(a) => join2("invalid or missing openai api key. error: ", a.as_str()),
            LaunchError::InitSql(a) => join2("error initializing database connection pool. error: ", a.as_str()),
            LaunchError::InitCache(a) => join2("error initializing cache pool. error: ", a.as_str()),
            LaunchError::InvalidSessionInterface(a) => join2("invalid or missing session interface. error: ", a.as_str()),
            LaunchError::InvalidName(a) => join2("invalid or missing app name. error: ", a.as_str()),
            LaunchError::InvalidAssetBackend(a) => join2("invalid or missing asset backend. error: ", a.as_str()),
            LaunchError::LoadEnvironment(a) => join2("could not load environment variables. error: ", a.as_str()),
            LaunchError::Migrate(a) => join2("could not run database migrations. error: ", a.as_str()),
            LaunchError::InvalidAuthProvider(a, b) => join4("invalid authentication provider ", a.as_str(), ". error: ", b.as_str()),
            LaunchError::InvalidAuth0Tenant(a) => join2("invalid auth0 tenant. error: ", a.as_str()),
            LaunchError::InitAuth(a, b) => join4("error initializing ", a.as_str(), " authentication provider. error: ", b.as_str()),
            LaunchError::Internal(a) => join2("unknown internal server failure. error: ", a.as_str()),
        }
    }
}

} // verus!
