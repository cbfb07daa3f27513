//! What can go wrong in the storage layer.

use vstd::prelude::*;
use vstd::string::*;
use crate::text::join2;

verus! {

/// A failure of the database or of the cache.
#[derive(Debug, PartialEq, Eq)]
pub enum DbError {
    InvalidUri(String),
    PoolCreate(String),
    CreateClient(String),
    InvalidCacheValue(String),
    Parse(String),
    ServerError(String),
}

/// The text of a failure.
pub open spec fn db_error_text(e: DbError) -> Seq<char> {
    match e {
        DbError::InvalidUri(a) => "invalid database uri. error: "@ + a@,
        DbError::PoolCreate(a) => "unable to create connection pool. error: "@ + a@,
        DbError::CreateClient(a) => "unable to create client. error: "@ + a@,
        DbError::InvalidCacheValue(a) => "invalid value for cache (not a supported type). error: "@ + a@,
        DbError::Parse(a) => "unable to parse into value. error: "@ + a@,
        DbError::ServerError(a) => "internal server error with database client. error: "@ + a@,
    }
}

impl DbError {
    /// The failure as one line of text.
    pub fn message(&self) -> (m: String)
        ensures
            m@ == db_error_text(*self),
    {
        match self {
            DbError::InvalidUri(a) => join2("invalid database uri. error: ", a.as_str()),
            DbError::PoolCreate(a) => join2("unable to create connection pool. error: ", a.as_str()),
            DbError::CreateClient(a) => join2("unable to create client. error: ", a.as_str()),
            DbError::InvalidCacheValue(a) => join2("invalid value for cache (not a supported type). error: ", a.as_str()),
            DbError::Parse(a) => join2("unable to parse into value. error: ", a.as_str()),
            DbError::ServerError(a) => join2("internal server error with database client. error: ", a.as_str()),
        }
    }
}

/// The bytes under which a value is cached, from what serialising the
/// value gave: the bytes of its JSON text, or the failure of a value that
/// cannot be written as JSON.
pub fn cache_bytes(json: Result<String, String>) -> (r: Result<Vec<u8>, DbError>)
    ensures
        match json {
            Ok(text) => r is Ok && r->Ok_0@ == vstd::utf8::encode_utf8(text@),
            Err(m) => r is Err && r->Err_0 == DbError::InvalidCacheValue(m),
        },
{
    match json {
        Ok(text) => Ok(text.as_str().as_bytes_vec()),
        Err(m) => Err(DbError::InvalidCacheValue(m)),
    }
}

/// What a lookup in the cache comes to, from what was found under the key
/// and what reading it as JSON gave: nothing where nothing was cached, the
/// value where the cached text could be read, and a failure where it could
/// not.
pub fn cached_value<T>(found: Option<Result<T, String>>) -> (r: Result<Option<T>, DbError>)
    ensures
        match found {
            None => r == Ok::<Option<T>, DbError>(None),
            Some(Ok(v)) => r == Ok::<Option<T>, DbError>(Some(v)),
            Some(Err(m)) => r == Err::<Option<T>, DbError>(DbError::Parse(m)),
        },
{
    match found {
        None => Ok(None),
        Some(Ok(v)) => Ok(Some(v)),
        Some(Err(m)) => Err(DbError::Parse(m)),
    }
}

} // verus!
