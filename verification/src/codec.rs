//! The token codec: signing and verification of claims with a symmetric
//! secret.
//!
//! A claim is the pair `(id, exp)`: the agent identifier and the expiration
//! instant in seconds since the epoch. A token is signed with HMAC over
//! SHA-256. The textual secret is re-encoded as base64 before being
//! interpreted as base64-encoded key material; the transform adds no entropy
//! but is kept exactly, for interoperability with previously issued tokens.
//!
//! What the signing library returns is named by two uninterpreted functions:
//! `signed_token_of` for the token text, and `decoded_claim_of` for the claims
//! that verification recovers. The verified logic decides expiry itself, from
//! an explicit clock value, so that an expired credential is distinguishable
//! from an invalid one.

use base64::engine::general_purpose::STANDARD;
use base64::Engine;
use vstd::prelude::*;

use crate::errors::TokenError;

verus! {

/// The signed payload: agent identifier and expiration instant (seconds since
/// the epoch). A token carries these two fields and nothing else.
#[derive(Debug, Clone, PartialEq, Eq)]
pub struct TokenClaim {
    pub id: String,
    pub exp: u64,
}

impl TokenClaim {
    pub fn new(id: String, exp: u64) -> (c: TokenClaim)
        ensures
            c.id@ == id@,
            c.exp == exp,
    {
        TokenClaim { id, exp }
    }
}

/// The token text that signing the claim `(id, exp)` with `secret` produces.
/// The signature is a deterministic function of the claim and the secret.
pub uninterp spec fn signed_token_of(id: Seq<char>, exp: u64, secret: Seq<char>) -> Seq<char>;

/// The claims that verifying `token` against `secret` recovers: `None` when
/// the signature does not match the secret or the payload does not parse,
/// `Some((id, exp))` otherwise. Expiry is not part of this function; it is
/// decided by the caller against an explicit clock value.
pub uninterp spec fn decoded_claim_of(token: Seq<char>, secret: Seq<char>) -> Option<
    (Seq<char>, u64),
>;

/// What verification says of a token once the claims are recovered (or not)
/// and the clock is fixed.
pub enum Verdict {
    /// The signature does not match the secret, or the payload does not parse.
    Invalid,
    /// The signature is valid but the expiration instant has passed.
    Expired(Seq<char>, u64),
    /// The signature is valid and the claim has not expired.
    Accepted(Seq<char>, u64),
}

/// The verdict on a token whose recovered claims are `dc`, at instant `now`.
/// A claim whose `exp` equals `now` is already expired: a token is accepted
/// strictly before its expiration instant.
pub open spec fn claim_verdict(dc: Option<(Seq<char>, u64)>, now: u64) -> Verdict {
    match dc {
        None => Verdict::Invalid,
        Some((id, exp)) => if exp <= now {
            Verdict::Expired(id, exp)
        } else {
            Verdict::Accepted(id, exp)
        },
    }
}

/// Relies on `std::time::SystemTime::now`: the current wall-clock instant as
/// whole seconds since the epoch, `None` when the clock reads before the
/// epoch. Nothing is promised of the value; the call cannot panic.
#[verifier::external_body]
fn system_time_raw() -> Option<u64> {
    match std::time::SystemTime::now().duration_since(std::time::UNIX_EPOCH) {
        Ok(d) => Some(d.as_secs()),
        Err(_) => None,
    }
}

/// The current instant as seconds since the epoch; a clock before the epoch
/// reads as zero.
pub fn now_unix() -> u64 {
    match system_time_raw() {
        Some(s) => s,
        None => 0,
    }
}

/// Relies on `jsonwebtoken::encode` with the HS256 algorithm and
/// `EncodingKey::from_base64_secret`, and on `base64`'s standard engine for
/// the secret re-encoding. The token is a deterministic function of the claim
/// and the secret, and verifying it with the same secret recovers the claim.
/// Every step of this path is infallible: decoding a freshly standard-encoded
/// base64 string cannot fail, the HMAC signer accepts keys of any length and
/// signs unconditionally, and serializing the fixed header and these two
/// claims cannot fail — so the call always returns a token.
#[verifier::external_body]
fn hs256_sign(id: &str, exp: u64, secret: &str) -> (r: Option<String>)
    ensures
        r is Some,
        r matches Some(t) ==> t@ == signed_token_of(id@, exp, secret@),
        r matches Some(t) ==> decoded_claim_of(t@, secret@) == Some((id@, exp)),
{
    let key = jsonwebtoken::EncodingKey::from_base64_secret(&STANDARD.encode(secret)).ok()?;
    let mut claims = serde_json::Map::new();
    claims.insert("id".to_string(), serde_json::Value::String(id.to_string()));
    claims.insert("exp".to_string(), serde_json::Value::from(exp));
    let payload = serde_json::Value::Object(claims);
    jsonwebtoken::encode(&jsonwebtoken::Header::default(), &payload, &key).ok()
}

/// Relies on `jsonwebtoken::decode` restricted to the HS256 algorithm, with
/// expiry validation turned off so that the result is a deterministic
/// function of the token and the secret, and on `base64`'s standard engine
/// for the secret re-encoding. Returns `None` when the token is malformed,
/// its header names another algorithm, the signature does not match, the
/// payload lacks a textual `id` or an integral `exp`, or the payload carries
/// an `aud` claim (this service expects none).
#[verifier::external_body]
fn hs256_decode(token: &str, secret: &str) -> (r: Option<TokenClaim>)
    ensures
        r matches Some(c) ==> decoded_claim_of(token@, secret@) == Some((c.id@, c.exp)),
        r is None ==> decoded_claim_of(token@, secret@) is None,
{
    let key = jsonwebtoken::DecodingKey::from_base64_secret(&STANDARD.encode(secret)).ok()?;
    let mut validation = jsonwebtoken::Validation::new(jsonwebtoken::Algorithm::HS256);
    validation.validate_exp = false;
    let data = jsonwebtoken::decode::<serde_json::Value>(token, &key, &validation).ok()?;
    let id = data.claims.get("id")?.as_str()?.to_string();
    let exp = data.claims.get("exp")?.as_u64()?;
    Some(TokenClaim { id, exp })
}

/// Sign the claim `(id, exp)` with `secret`: the signed token, which decodes
/// back to exactly this claim under the same secret.
pub fn sign_claim(id: &str, exp: u64, secret: &str) -> (t: String)
    ensures
        t@ == signed_token_of(id@, exp, secret@),
        decoded_claim_of(t@, secret@) == Some((id@, exp)),
{
    match hs256_sign(id, exp, secret) {
        Some(t) => t,
        None => unreached(),
    }
}

/// Verify `token` against `secret` at instant `now`. The result follows
/// `claim_verdict` exactly: an undecodable token is rejected as invalid, a
/// decodable one whose expiry has passed is rejected as expired, and any
/// other decodable one is accepted with its claims.
pub fn verify_at(token: &str, secret: &str, now: u64) -> (r: Result<TokenClaim, TokenError>)
    ensures
        match claim_verdict(decoded_claim_of(token@, secret@), now) {
            Verdict::Invalid => r matches Err(TokenError::TokenDecodingError(s)) && s@ == token@,
            Verdict::Expired(_, _) => r matches Err(TokenError::TokenExpired(s)) && s@ == token@,
            Verdict::Accepted(id, exp) => r matches Ok(c) && c.id@ == id && c.exp == exp,
        },
{
    match hs256_decode(token, secret) {
        None => Err(TokenError::TokenDecodingError(token.to_owned())),
        Some(c) => {
            if c.exp <= now {
                Err(TokenError::TokenExpired(token.to_owned()))
            } else {
                Ok(c)
            }
        },
    }
}

/// Round trip: a token signed over `(id, exp)` with a secret, verified with
/// the same secret while `exp` is still in the future, is accepted with
/// exactly the claims that were signed.
pub proof fn lemma_sign_verify_round_trip(
    token: Seq<char>,
    secret: Seq<char>,
    id: Seq<char>,
    exp: u64,
    now: u64,
)
    requires
        decoded_claim_of(token, secret) == Some((id, exp)),
        now < exp,
    ensures
        claim_verdict(decoded_claim_of(token, secret), now) == Verdict::Accepted(id, exp),
{
}

/// A token whose claims cannot be recovered — the signature was made with a
/// different secret, or the payload does not parse — is rejected as invalid,
/// never as expired, whatever the clock says.
pub proof fn lemma_undecodable_is_invalid(token: Seq<char>, secret: Seq<char>, now: u64)
    requires
        decoded_claim_of(token, secret) is None,
    ensures
        claim_verdict(decoded_claim_of(token, secret), now) is Invalid,
        !(claim_verdict(decoded_claim_of(token, secret), now) is Expired),
{
}

/// A token whose signature is valid but whose expiration instant has passed
/// is rejected as expired, not as invalid.
pub proof fn lemma_expired_despite_valid_signature(
    token: Seq<char>,
    secret: Seq<char>,
    id: Seq<char>,
    exp: u64,
    now: u64,
)
    requires
        decoded_claim_of(token, secret) == Some((id, exp)),
        exp <= now,
    ensures
        claim_verdict(decoded_claim_of(token, secret), now) == Verdict::Expired(id, exp),
{
}

} // verus!
