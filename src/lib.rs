//! Bearer-token authentication against a cached, remotely published key set.
use vstd::prelude::*;

pub mod builder;
pub mod cache;
pub mod error;
pub mod keys;
pub mod token;

pub use builder::{BuildError, CachedJwkSet, CachedJwkSetBuilder};
pub use cache::{begin_get, finish_get, CacheEntry, CacheStep, SingleCache};
pub use error::AuthError;
pub use keys::{KeyParams, KeyRecord, KeySet};
pub use token::{Claims, contains_separator, parse_token, resolve_key, select_key, TokenHeader};

verus! {

} // verus!
