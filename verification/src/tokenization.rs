//! The legacy tokenization surface: the same registry and codec, under the
//! call shapes of the older call sites.
//!
//! [`Token`] pairs an agent identifier with an hour count when a token is
//! created, and with an expiration instant when a row is read back from the
//! registry. [`TokenManager`] reads the registry and hands rows out in that
//! shape.

use vstd::prelude::*;

use crate::codec::{decoded_claim_of, now_unix, sign_claim, signed_token_of, verify_at, TokenClaim};
use crate::errors::{StorageError, TokenError};
use crate::tokens::{TokenMetadata, TokensDatabase};

verus! {

/// An agent identifier with a signed integer: hours until expiry when a token
/// is created, the expiration instant when a registry row is read back.
#[derive(Debug, Clone, PartialEq, Eq)]
pub struct Token {
    pub id: String,
    pub exp: i64,
}

/// The legacy read surface over the registry. It holds only the location of
/// the database file; each operation opens its own connection.
#[derive(Debug, Clone)]
pub struct TokenManager {
    location: String,
}

/// The expiration instant `hours` hours after `now` (`hours` may be
/// negative), clamped to the representable range.
pub fn expiry_from_hours(now: u64, hours: i64) -> (r: u64)
    ensures
        now + hours * 3600 < 0 ==> r == 0,
        0 <= now + hours * 3600 <= u64::MAX ==> r == now + hours * 3600,
        now + hours * 3600 > u64::MAX ==> r == u64::MAX,
{
    let e: i128 = now as i128 + hours as i128 * 3600;
    if e < 0 {
        0
    } else if e > u64::MAX as i128 {
        u64::MAX
    } else {
        e as u64
    }
}

/// An unsigned expiration instant as the signed value the legacy rows carry,
/// clamped to the representable range.
pub fn instant_as_i64(e: u64) -> (r: i64)
    ensures
        e <= i64::MAX ==> r == e as i64,
        e > i64::MAX ==> r == i64::MAX,
{
    if e > i64::MAX as u64 {
        i64::MAX
    } else {
        e as i64
    }
}

/// Registry rows in the legacy shape: same identifiers in the same order,
/// each expiration instant clamped to the signed range.
pub fn tokens_of_records(records: &Vec<TokenMetadata>) -> (r: Vec<Token>)
    ensures
        r@.len() == records@.len(),
        forall|j: int|
            0 <= j < r@.len() ==> r@[j].id@ == records@[j].id@ && (records@[j].exp <= i64::MAX
                ==> r@[j].exp == records@[j].exp as i64) && (records@[j].exp > i64::MAX
                ==> r@[j].exp == i64::MAX),
{
    let mut out: Vec<Token> = Vec::new();
    let mut idx: usize = 0;
    while idx < records.len()
        invariant
            idx <= records@.len(),
            out@.len() == idx as int,
            forall|j: int|
                0 <= j < idx ==> out@[j].id@ == records@[j].id@ && (records@[j].exp <= i64::MAX
                    ==> out@[j].exp == records@[j].exp as i64) && (records@[j].exp > i64::MAX
                    ==> out@[j].exp == i64::MAX),
        decreases records@.len() - idx,
    {
        let m = &records[idx];
        out.push(Token { id: m.id.clone(), exp: instant_as_i64(m.exp) });
        idx = idx + 1;
    }
    out
}

impl Token {
    pub fn new(id: String, exp: i64) -> (t: Token)
        ensures
            t.id@ == id@,
            t.exp == exp,
    {
        Token { id, exp }
    }

    /// Sign a claim for this identifier that expires `self.exp` hours from
    /// now. The signing path cannot fail, so the result is always the signed
    /// token over this identifier and some expiration instant the clock
    /// determined.
    pub fn create(&self, secret_key: &str) -> (r: Result<String, TokenError>)
        ensures
            r is Ok,
            r matches Ok(t) ==> exists|e: u64|
                t@ == signed_token_of(self.id@, e, secret_key@) && decoded_claim_of(
                    t@,
                    secret_key@,
                ) == Some((self.id@, e)),
    {
        let expiration = expiry_from_hours(now_unix(), self.exp);
        Ok(sign_claim(self.id.as_str(), expiration, secret_key))
    }

    /// Verify `token` with `secret_key` at the current instant and return its
    /// claims. A token that does not decode is a decoding failure; one that
    /// decodes but has expired is an expiry failure.
    pub fn parse(token: &str, secret_key: &str) -> (r: Result<TokenClaim, TokenError>)
        ensures
            r matches Ok(c) ==> decoded_claim_of(token@, secret_key@) == Some((c.id@, c.exp)),
            r matches Err(TokenError::TokenDecodingError(s)) ==> decoded_claim_of(
                token@,
                secret_key@,
            ) is None && s@ == token@,
            r matches Err(TokenError::TokenExpired(s)) ==> decoded_claim_of(token@, secret_key@)
                is Some && s@ == token@,
            !(r matches Err(TokenError::UnexpectedToken(_))),
    {
        let now = now_unix();
        verify_at(token, secret_key, now)
    }
}

impl TokenManager {
    /// The location of the database file.
    pub closed spec fn spec_location(&self) -> Seq<char> {
        self.location@
    }

    /// A manager over the database file at `location`.
    pub fn new(location: String) -> (m: TokenManager)
        ensures
            m.spec_location() == location@,
    {
        TokenManager { location }
    }

    /// Open a connection to the manager's database file.
    pub fn connect(&self) -> Result<rusqlite::Connection, rusqlite::Error> {
        TokensDatabase::new(self.location.as_str()).connect()
    }

    /// Every registry row in the legacy shape, in no guaranteed order. An
    /// empty registry is an empty sequence, not an error.
    pub fn get_tokens(&self) -> (r: Result<Vec<Token>, StorageError>)
        ensures
            r matches Err(e) ==> e is QueryFailed,
    {
        let db = TokensDatabase::new(self.location.as_str());
        match db.get_all() {
            Ok(records) => Ok(tokens_of_records(&records)),
            Err(_) => Err(StorageError::QueryFailed),
        }
    }

    /// The registry row with the given identifier, in the legacy shape.
    /// `NotFound` carries the identifier when no such row exists; a driver
    /// failure is `QueryFailed`.
    pub fn get_token(&self, id: &str) -> (r: Result<Token, StorageError>)
        ensures
            r matches Ok(t) ==> t.id@ == id@,
            r matches Err(StorageError::NotFound(k)) ==> k@ == id@,
            r matches Err(e) ==> e matches StorageError::NotFound(_) || e is QueryFailed,
    {
        let db = TokensDatabase::new(self.location.as_str());
        match db.get_from_id(id) {
            Ok(m) => Ok(Token { id: m.id, exp: instant_as_i64(m.exp) }),
            Err(StorageError::NotFound(k)) => Err(StorageError::NotFound(k)),
            Err(_) => Err(StorageError::QueryFailed),
        }
    }
}

} // verus!
