//! The verification pipeline up to decoding: token shape, header, key lookup and
//! key material.
use vstd::prelude::*;
use vstd::string::*;
use jsonwebtoken::{Algorithm, DecodingKey};
use crate::error::{AuthError, AuthFailure};
use crate::keys::{first_match, opt_str_view, record_matches, KeyParams, KeySet, ParamsModel, RecordModel};

verus! {

#[verifier::external_type_specification]
#[verifier::external_body]
pub struct ExAlgorithm(Algorithm);

#[verifier::external_type_specification]
#[verifier::external_body]
pub struct ExDecodingKey(DecodingKey);

/// What `jsonwebtoken::decode_header` makes of a token: `None` where it fails, else the
/// header's key id (itself optional).
pub uninterp spec fn header_kid(token: Seq<char>) -> Option<Option<Seq<char>>>;

/// Whether `jsonwebtoken::DecodingKey::from_rsa_components` accepts a modulus and an exponent.
pub uninterp spec fn rsa_components_accepted(n: Seq<char>, e: Seq<char>) -> bool;

/// Whether `jsonwebtoken::DecodingKey::from_ec_components` accepts the two coordinates.
pub uninterp spec fn ec_components_accepted(x: Seq<char>, y: Seq<char>) -> bool;

/// Relies on jsonwebtoken::decode_header: parses the header segment of a token without
/// checking its signature; the outcome depends on the token's text alone.
#[verifier::external_body]
fn decode_header_fields(token: &str) -> (r: Result<(Algorithm, Option<String>), String>)
    ensures
        match header_kid(token@) {
            None => r is Err,
            Some(k) => r matches Ok(p) && opt_str_view(p.1) == k,
        },
{
    match jsonwebtoken::decode_header(token) {
        Ok(h) => Ok((h.alg, h.kid)),
        Err(e) => Err(e.to_string()),
    }
}

/// Relies on jsonwebtoken::DecodingKey::from_rsa_components: builds RSA key material from a
/// base64url modulus and exponent; whether it succeeds depends on the two texts alone.
#[verifier::external_body]
fn rsa_key(n: &str, e: &str) -> (r: Result<DecodingKey, String>)
    ensures
        r is Ok <==> rsa_components_accepted(n@, e@),
{
    match DecodingKey::from_rsa_components(n, e) {
        Ok(k) => Ok(k),
        Err(err) => Err(err.to_string()),
    }
}

/// Relies on jsonwebtoken::DecodingKey::from_ec_components: builds elliptic-curve key
/// material from base64url coordinates; whether it succeeds depends on the two texts alone.
#[verifier::external_body]
fn ec_key(x: &str, y: &str) -> (r: Result<DecodingKey, String>)
    ensures
        r is Ok <==> ec_components_accepted(x@, y@),
{
    match DecodingKey::from_ec_components(x, y) {
        Ok(k) => Ok(k),
        Err(err) => Err(err.to_string()),
    }
}

/// The claims that a verified token carries: its subject and expiry (seconds since the epoch) of a token.
#[derive(Clone, Debug)]
pub struct Claims {
    pub sub: String,
    pub exp: usize,
}

/// The parts of a token's header that the pipeline reads.
pub struct TokenHeader {
    pub alg: Algorithm,
    pub kid: Option<String>,
}

impl View for TokenHeader {
    type V = Option<Seq<char>>;

    open spec fn view(&self) -> Option<Seq<char>> {
        opt_str_view(self.kid)
    }
}

/// The token holds at least two period-separated segments.
pub open spec fn has_separator(token: Seq<char>) -> bool {
    exists|i: int| 0 <= i < token.len() && token[i] == '.'
}

pub fn contains_separator(token: &str) -> (r: bool)
    ensures
        r == has_separator(token@),
{
    let len = token.unicode_len();
    let mut i: usize = 0;
    while i < len
        invariant
            len == token@.len(),
            i <= len,
            forall|k: int| 0 <= k < i ==> token@[k] != '.',
        decreases len - i,
    {
        if token.get_char(i) == '.' {
            return true;
        }
        i = i + 1;
    }
    false
}

/// Checks the token's shape and reads its header, without checking the signature.
pub fn parse_token(token: &str) -> (r: Result<TokenHeader, AuthError>)
    ensures
        !has_separator(token@) ==> (r matches Err(e) && e@ == AuthFailure::InvalidToken(
            "invalid format"@,
        )),
        has_separator(token@) ==> match header_kid(token@) {
            None => r matches Err(e) && e@ is InvalidToken,
            Some(k) => r matches Ok(h) && h@ == k,
        },
{
    if !contains_separator(token) {
        return Err(AuthError::InvalidToken(String::from_str("invalid format")));
    }
    match decode_header_fields(token) {
        Ok((alg, kid)) => Ok(TokenHeader { alg, kid }),
        Err(reason) => Err(AuthError::InvalidToken(reason)),
    }
}

/// Which step of key selection decides the outcome.
pub enum Selection {
    MissingKid,
    NoMatch,
    Rsa(Seq<char>, Seq<char>),
    EllipticCurve(Seq<char>, Seq<char>),
    Unsupported,
}

/// Key selection for a header key id over a key set: the first record carrying the key id
/// decides, by its family.
pub open spec fn selection(kid: Option<Seq<char>>, keys: Seq<RecordModel>) -> Selection {
    match kid {
        None => Selection::MissingKid,
        Some(k) => match first_match(keys, k) {
            None => Selection::NoMatch,
            Some(j) => match keys[j].params {
                ParamsModel::Rsa { n, e } => Selection::Rsa(n, e),
                ParamsModel::EllipticCurve { x, y } => Selection::EllipticCurve(x, y),
                ParamsModel::Other => Selection::Unsupported,
            },
        },
    }
}

/// Key material can be built for the header over the key set.
pub open spec fn selection_succeeds(kid: Option<Seq<char>>, keys: Seq<RecordModel>) -> bool {
    match selection(kid, keys) {
        Selection::Rsa(n, e) => rsa_components_accepted(n, e),
        Selection::EllipticCurve(x, y) => ec_components_accepted(x, y),
        _ => false,
    }
}

/// Resolves the decoding key material for one key record by its family.
pub fn resolve_key(params: &KeyParams) -> (r: Result<DecodingKey, AuthError>)
    ensures
        r is Ok <==> match params@ {
            ParamsModel::Rsa { n, e } => rsa_components_accepted(n, e),
            ParamsModel::EllipticCurve { x, y } => ec_components_accepted(x, y),
            ParamsModel::Other => false,
        },
        params@ is Other ==> (r matches Err(e) && e@ == AuthFailure::UnsupportedAlgorithm),
        !(params@ is Other) ==> (r matches Err(e) ==> e@ is InvalidToken),
{
    match params {
        KeyParams::Rsa { n, e } => match rsa_key(n.as_str(), e.as_str()) {
            Ok(k) => Ok(k),
            Err(reason) => Err(AuthError::InvalidToken(reason)),
        },
        KeyParams::EllipticCurve { x, y } => match ec_key(x.as_str(), y.as_str()) {
            Ok(k) => Ok(k),
            Err(reason) => Err(AuthError::InvalidToken(reason)),
        },
        KeyParams::Other => Err(AuthError::UnsupportedAlgorithm),
    }
}

/// Finds the key named by the header in the key set and builds its key material.
pub fn select_key(header: &TokenHeader, keys: &KeySet) -> (r: Result<DecodingKey, AuthError>)
    ensures
        r is Ok <==> selection_succeeds(header@, keys@),
        match selection(header@, keys@) {
            Selection::MissingKid => r matches Err(e) && e@ == AuthFailure::InvalidToken(
                "missing `kid` header field"@,
            ),
            Selection::NoMatch => r matches Err(e) && e@ == AuthFailure::InvalidToken(
                "no matching JWK found for the given kid"@,
            ),
            Selection::Unsupported => r matches Err(e) && e@ == AuthFailure::UnsupportedAlgorithm,
            _ => r matches Err(e) ==> e@ is InvalidToken,
        },
{
    let kid = match &header.kid {
        Some(k) => k,
        None => {
            return Err(AuthError::InvalidToken(String::from_str("missing `kid` header field")));
        },
    };
    match keys.find(kid.as_str()) {
        None => Err(
            AuthError::InvalidToken(String::from_str("no matching JWK found for the given kid")),
        ),
        Some(rec) => {
            proof {
                crate::keys::lemma_first_match(keys@, kid@);
                let j = first_match(keys@, kid@)->Some_0;
                assert(keys@[j] == keys.keys@[j]@);
            }
            resolve_key(&rec.params)
        },
    }
}

/// Key lookup determinism: key material is obtained only when the key set holds a record
/// carrying the header's key id; with no such record, selection fails on the lookup (an
/// invalid token).
pub proof fn lemma_lookup_determinism(k: Seq<char>, keys: Seq<RecordModel>)
    ensures
        selection_succeeds(Some(k), keys) ==> exists|i: int|
            0 <= i < keys.len() && record_matches(#[trigger] keys[i], k),
        (forall|i: int| 0 <= i < keys.len() ==> !record_matches(#[trigger] keys[i], k))
            ==> selection(Some(k), keys) is NoMatch,
{
    crate::keys::lemma_first_match(keys, k);
}

/// Algorithm gating: when the first record carrying the key id is of an unsupported family,
/// selection ends in the unsupported-algorithm failure and never builds key material.
pub proof fn lemma_algorithm_gating(k: Seq<char>, keys: Seq<RecordModel>, j: int)
    requires
        0 <= j < keys.len(),
        record_matches(keys[j], k),
        keys[j].params is Other,
        forall|i: int| 0 <= i < j ==> !record_matches(#[trigger] keys[i], k),
    ensures
        selection(Some(k), keys) is Unsupported,
        !selection_succeeds(Some(k), keys),
{
    crate::keys::lemma_first_match(keys, k);
    let m = first_match(keys, k);
    if m is None {
        assert(!record_matches(keys[j], k));
    } else {
        let f = m->Some_0;
        if f < j {
            assert(!record_matches(keys[f], k));
        } else if f > j {
            assert(!record_matches(keys[j], k));
        }
    }
}

} // verus!
