//! Configuration of the key cache, with every field required.
use vstd::prelude::*;
use vstd::string::*;
use std::sync::Arc;
use tokio::sync::Mutex;
use crate::cache::SingleCache;
use crate::keys::KeySet;

verus! {

#[verifier::external_type_specification]
#[verifier::external_body]
#[verifier::reject_recursive_types(T)]
pub struct ExMutex<T: ?Sized>(Mutex<T>);

/// Relies on tokio::sync::Mutex::new: a lock around the given slot, not yet held.
#[verifier::external_body]
fn lock_around(slot: SingleCache<KeySet>) -> Mutex<SingleCache<KeySet>> {
    Mutex::new(slot)
}

/// The configuration field that a build found missing.
#[derive(Clone, Copy, Debug, PartialEq, Eq, Structural)]
pub enum BuildError {
    MissingUri,
    MissingDuration,
    MissingValidator,
    MissingHttpClient,
}

/// The text that describes a build failure.
pub open spec fn build_message(e: BuildError) -> Seq<char> {
    match e {
        BuildError::MissingUri => "Issuer is required"@,
        BuildError::MissingDuration => "Duration is required"@,
        BuildError::MissingValidator => "Validation is required"@,
        BuildError::MissingHttpClient => "HTTP client is required"@,
    }
}

impl BuildError {
    pub fn message(&self) -> (r: String)
        ensures
            r@ == build_message(*self),
    {
        match self {
            BuildError::MissingUri => String::from_str("Issuer is required"),
            BuildError::MissingDuration => String::from_str("Duration is required"),
            BuildError::MissingValidator => String::from_str("Validation is required"),
            BuildError::MissingHttpClient => String::from_str("HTTP client is required"),
        }
    }
}

/// A key cache: where the key set is published, how long a fetched set stays fresh (in
/// milliseconds), the validation hook `V`, the lock around the single slot, and the HTTP
/// client `H` that fetches.
pub struct CachedJwkSet<V, H> {
    pub jwk_set_uri: String,
    pub duration: u64,
    pub validator: V,
    pub cached_keys: Arc<Mutex<SingleCache<KeySet>>>,
    pub http_client: H,
}

/// Collects the configuration of a key cache.
pub struct CachedJwkSetBuilder<V, H> {
    pub jwk_set_uri: Option<String>,
    pub duration: Option<u64>,
    pub validator: Option<V>,
    pub http_client: Option<H>,
}

impl<V, H> CachedJwkSet<V, H> {
    /// A builder with nothing set.
    pub fn builder() -> (r: CachedJwkSetBuilder<V, H>)
        ensures
            r.jwk_set_uri is None,
            r.duration is None,
            r.validator is None,
            r.http_client is None,
    {
        CachedJwkSetBuilder { jwk_set_uri: None, duration: None, validator: None, http_client: None }
    }
}

/// The first missing field, in the order source, duration, hook, client.
pub open spec fn first_missing<V, H>(b: CachedJwkSetBuilder<V, H>) -> Option<BuildError> {
    if b.jwk_set_uri is None {
        Some(BuildError::MissingUri)
    } else if b.duration is None {
        Some(BuildError::MissingDuration)
    } else if b.validator is None {
        Some(BuildError::MissingValidator)
    } else if b.http_client is None {
        Some(BuildError::MissingHttpClient)
    } else {
        None
    }
}

impl<V: Clone, H: Clone> CachedJwkSetBuilder<V, H> {
    pub fn jwk_set_uri(self, jwk_set_uri: String) -> (r: Self)
        ensures
            r.jwk_set_uri == Some(jwk_set_uri),
            r.duration == self.duration,
            r.validator == self.validator,
            r.http_client == self.http_client,
    {
        CachedJwkSetBuilder { jwk_set_uri: Some(jwk_set_uri), ..self }
    }

    /// Sets the time to live of a fetched key set, in milliseconds.
    pub fn duration(self, duration: u64) -> (r: Self)
        ensures
            r.jwk_set_uri == self.jwk_set_uri,
            r.duration == Some(duration),
            r.validator == self.validator,
            r.http_client == self.http_client,
    {
        CachedJwkSetBuilder { duration: Some(duration), ..self }
    }

    pub fn validator(self, validator: V) -> (r: Self)
        ensures
            r.jwk_set_uri == self.jwk_set_uri,
            r.duration == self.duration,
            r.validator == Some(validator),
            r.http_client == self.http_client,
    {
        CachedJwkSetBuilder { validator: Some(validator), ..self }
    }

    pub fn http_client(self, http_client: H) -> (r: Self)
        ensures
            r.jwk_set_uri == self.jwk_set_uri,
            r.duration == self.duration,
            r.validator == self.validator,
            r.http_client == Some(http_client),
    {
        CachedJwkSetBuilder { http_client: Some(http_client), ..self }
    }

    /// A key cache with an empty slot, or the first missing field.
    pub fn build(&self) -> (r: Result<CachedJwkSet<V, H>, BuildError>)
        ensures
            match first_missing(*self) {
                Some(e) => r == Err::<CachedJwkSet<V, H>, BuildError>(e),
                None => r matches Ok(c) && c.jwk_set_uri@ == self.jwk_set_uri->Some_0@
                    && c.duration == self.duration->Some_0,
            },
    {
        let jwk_set_uri = match &self.jwk_set_uri {
            Some(u) => u.clone(),
            None => {
                return Err(BuildError::MissingUri);
            },
        };
        let duration = match self.duration {
            Some(d) => d,
            None => {
                return Err(BuildError::MissingDuration);
            },
        };
        let validator = match &self.validator {
            Some(v) => v.clone(),
            None => {
                return Err(BuildError::MissingValidator);
            },
        };
        let http_client = match &self.http_client {
            Some(h) => h.clone(),
            None => {
                return Err(BuildError::MissingHttpClient);
            },
        };
        let cached_keys = Arc::new(lock_around(SingleCache::empty()));
        Ok(CachedJwkSet { jwk_set_uri, duration, validator, cached_keys, http_client })
    }
}

} // verus!
