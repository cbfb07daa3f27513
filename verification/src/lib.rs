//! Bearer-token authentication for an HTTP gateway: key-set handling, key
//! selection, token validation and the request guard's decisions, with the
//! behaviour of each function stated as a contract and proved.

pub mod text;
pub mod errors;
pub mod json;
pub mod keys;
pub mod token;
pub mod authenticator;
pub mod auth0;
pub mod noop;
pub mod guard;
pub mod launch;
pub mod storage;
pub mod openai;
pub mod types;
pub mod state;
pub mod util;
