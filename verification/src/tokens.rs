//! The token registry: durable records of agent identities, kept in an
//! embedded relational store.
//!
//! A registry row holds the agent identifier (the primary key), the
//! expiration instant, and optionally the last-issued signed token for that
//! identifier. The store opens a connection per operation; every operation is
//! atomic in isolation and nothing here spans a transaction across calls.
//!
//! The database decides what a lookup returns — its answer comes from disk —
//! so each driver call stands behind a trusted wrapper that states only what
//! the query's shape guarantees (a row selected by `id` carries that `id`),
//! and `resolve_lookup` turns an answer into the caller's result with an
//! exact contract.

use rusqlite::OptionalExtension;
use vstd::prelude::*;

use crate::codec::{decoded_claim_of, now_unix, sign_claim, signed_token_of};
use crate::errors::{StorageError, TokenMetadataError};

verus! {

/// One registry row: agent identifier, expiration instant (seconds since the
/// epoch), and the last-issued signed token for this identifier, if any.
#[derive(Debug, Clone, PartialEq, Eq)]
pub struct TokenMetadata {
    pub id: String,
    pub exp: u64,
    pub token: Option<String>,
}

/// The registry store. It holds only the location of the database file; each
/// operation opens its own connection.
#[derive(Debug, Clone)]
pub struct TokensDatabase {
    location: String,
}

/// `rusqlite::Connection`: a handle to the embedded database, opaque to the
/// verified logic.
#[verifier::external_type_specification]
#[verifier::external_body]
pub struct ExConnection(rusqlite::Connection);

/// `rusqlite::Error`: the driver's failure report, opaque to the verified
/// logic and mapped to [`StorageError`] at each call site.
#[verifier::external_type_specification]
#[verifier::external_body]
pub struct ExSqlError(rusqlite::Error);

/// Relies on `rusqlite::Connection::open`: opens (creating if absent) the
/// database file at `path`.
#[verifier::external_body]
fn open_db(path: &str) -> Result<rusqlite::Connection, rusqlite::Error> {
    rusqlite::Connection::open(std::path::Path::new(path))
}

/// Relies on `rusqlite::Connection::execute` with `CREATE TABLE IF NOT
/// EXISTS`: ensures the canonical schema `{id PRIMARY KEY, exp, token
/// (nullable)}` exists, and succeeds when it already does.
#[verifier::external_body]
fn db_create_schema(conn: &rusqlite::Connection) -> Result<(), rusqlite::Error> {
    let sql = "CREATE TABLE IF NOT EXISTS Tokens ( id TEXT PRIMARY KEY, exp INTEGER NOT NULL, token TEXT )";
    match conn.execute(sql, []) {
        Ok(_) => Ok(()),
        Err(e) => Err(e),
    }
}

/// Relies on `rusqlite::Connection::query_row` over `SELECT ... WHERE id =
/// ?1` and `OptionalExtension::optional`: a row that comes back was selected
/// by equality on its `id` column, so it carries the requested identifier.
/// The row is returned as stored — `(id, exp, token)` — with no
/// interpretation.
#[verifier::external_body]
fn db_select_by_id(conn: &rusqlite::Connection, id: &str) -> (r: Result<
    Option<(String, i64, Option<String>)>,
    rusqlite::Error,
>)
    ensures
        r matches Ok(Some(row)) ==> row.0@ == id@,
{
    conn.query_row(
        "SELECT id, exp, token FROM Tokens WHERE id = ?1",
        [id],
        |row| Ok((row.get(0)?, row.get(1)?, row.get(2)?)),
    ).optional()
}

/// Relies on `rusqlite::Connection::query_row` over `SELECT ... WHERE token =
/// ?1` and `OptionalExtension::optional`: a row that comes back was selected
/// by equality on its `token` column, so its cached token is the requested
/// one. The row is returned as stored, with no interpretation.
#[verifier::external_body]
fn db_select_by_token(conn: &rusqlite::Connection, token: &str) -> (r: Result<
    Option<(String, i64, Option<String>)>,
    rusqlite::Error,
>)
    ensures
        r matches Ok(Some(row)) ==> (row.2 matches Some(t) && t@ == token@),
{
    conn.query_row(
        "SELECT id, exp, token FROM Tokens WHERE token = ?1",
        [token],
        |row| Ok((row.get(0)?, row.get(1)?, row.get(2)?)),
    ).optional()
}

/// Relies on `rusqlite::Statement::query_map` over `SELECT id, exp, token
/// FROM Tokens`: every row of the registry, as stored and in no guaranteed
/// order.
#[verifier::external_body]
fn db_select_all(conn: &rusqlite::Connection) -> Result<
    Vec<(String, i64, Option<String>)>,
    rusqlite::Error,
> {
    let mut stmt = conn.prepare("SELECT id, exp, token FROM Tokens")?;
    let rows = stmt.query_map([], |row| Ok((row.get(0)?, row.get(1)?, row.get(2)?)))?;
    rows.collect()
}

/// Relies on `rusqlite::Connection::execute` with `DELETE ... WHERE id = ?1`:
/// removes the row with the given identifier, if present.
#[verifier::external_body]
fn db_delete_by_id(conn: &rusqlite::Connection, id: &str) -> Result<(), rusqlite::Error> {
    match conn.execute("DELETE FROM Tokens WHERE id = ?1", [id]) {
        Ok(_) => Ok(()),
        Err(e) => Err(e),
    }
}

/// The expiration instant `hours` hours after `now`, saturating at the
/// largest representable instant.
pub fn expiry_at(now: u64, hours: u64) -> (r: u64)
    ensures
        now + hours * 3600 <= u64::MAX ==> r == now + hours * 3600,
        now + hours * 3600 > u64::MAX ==> r == u64::MAX,
{
    let e: u128 = now as u128 + hours as u128 * 3600;
    if e > u64::MAX as u128 {
        u64::MAX
    } else {
        e as u64
    }
}

/// A stored expiration value as an unsigned instant: the store's integer
/// column is signed, and a negative stored value reads as the epoch itself —
/// already expired at every clock.
pub fn instant_of_stored(e: i64) -> (r: u64)
    ensures
        e >= 0 ==> r == e as u64,
        e < 0 ==> r == 0,
{
    if e < 0 {
        0
    } else {
        e as u64
    }
}

/// A stored row `(id, exp, token)` as a registry record: the fields as
/// stored, the expiration clamped by [`instant_of_stored`].
pub fn record_of_row(row: (String, i64, Option<String>)) -> (m: TokenMetadata)
    ensures
        m.id@ == row.0@,
        row.1 >= 0 ==> m.exp == row.1 as u64,
        row.1 < 0 ==> m.exp == 0,
        m.token == row.2,
{
    let (id, exp, token) = row;
    TokenMetadata { id, exp: instant_of_stored(exp), token }
}

/// Every stored row as a registry record, in the stored order.
pub fn records_of_rows(rows: &Vec<(String, i64, Option<String>)>) -> (r: Vec<TokenMetadata>)
    ensures
        r@.len() == rows@.len(),
        forall|j: int|
            0 <= j < r@.len() ==> r@[j].id@ == rows@[j].0@ && (rows@[j].1 >= 0 ==> r@[j].exp
                == rows@[j].1 as u64) && (rows@[j].1 < 0 ==> r@[j].exp == 0) && (r@[j].token
                matches Some(t) <==> rows@[j].2 matches Some(u)) && (r@[j].token matches Some(t)
                ==> (rows@[j].2 matches Some(u) && t@ == u@)),
{
    let mut out: Vec<TokenMetadata> = Vec::new();
    let mut idx: usize = 0;
    while idx < rows.len()
        invariant
            idx <= rows@.len(),
            out@.len() == idx as int,
            forall|j: int|
                0 <= j < idx ==> out@[j].id@ == rows@[j].0@ && (rows@[j].1 >= 0 ==> out@[j].exp
                    == rows@[j].1 as u64) && (rows@[j].1 < 0 ==> out@[j].exp == 0) && (out@[
                    j].token matches Some(t) <==> rows@[j].2 matches Some(u)) && (out@[j].token
                    matches Some(t) ==> (rows@[j].2 matches Some(u) && t@ == u@)),
        decreases rows@.len() - idx,
    {
        let row = &rows[idx];
        let token = match &row.2 {
            Some(t) => Some(t.clone()),
            None => None,
        };
        out.push(TokenMetadata { id: row.0.clone(), exp: instant_of_stored(row.1), token });
        idx = idx + 1;
    }
    out
}

/// Turn the database's answer to a lookup into the caller's result: a row is
/// returned as it came, no row is the `NotFound` failure carrying the
/// requested key.
pub fn resolve_lookup(key: &str, row: Option<TokenMetadata>) -> (r: Result<
    TokenMetadata,
    StorageError,
>)
    ensures
        row matches Some(m) ==> r == Ok::<TokenMetadata, StorageError>(m),
        row is None ==> (r matches Err(StorageError::NotFound(k)) && k@ == key@),
{
    match row {
        Some(m) => Ok(m),
        None => Err(StorageError::NotFound(key.to_owned())),
    }
}

impl TokenMetadata {
    /// A present cached token is consistent with the row: verifying it with
    /// the current secret yields exactly the row's own `id` and `exp`. A
    /// mismatch marks a stale cache that must not be trusted; the
    /// authoritative source is always a fresh registry lookup.
    pub open spec fn token_cache_ok(&self, secret: Seq<char>) -> bool {
        match self.token {
            Some(t) => decoded_claim_of(t@, secret) == Some((self.id@, self.exp)),
            None => true,
        }
    }

    /// A fresh record for `id`, expiring `exp_in_hour` hours from now, with
    /// no cached token.
    pub fn new(id: String, exp_in_hour: u64) -> (m: TokenMetadata)
        ensures
            m.id@ == id@,
            m.token is None,
            forall|secret: Seq<char>| m.token_cache_ok(secret),
    {
        let now = now_unix();
        TokenMetadata { id, exp: expiry_at(now, exp_in_hour), token: None }
    }

    /// Refresh the record: the expiry moves to `exp_in_hour` hours after
    /// `now`, and the cached token is re-issued under `secret`, so the cache
    /// again matches the record's own fields.
    pub fn update(&mut self, exp_in_hour: u64, now: u64, secret: &str)
        ensures
            final(self).id@ == old(self).id@,
            now + exp_in_hour * 3600 <= u64::MAX ==> final(self).exp == now + exp_in_hour * 3600,
            now + exp_in_hour * 3600 > u64::MAX ==> final(self).exp == u64::MAX,
            final(self).token matches Some(t) && t@ == signed_token_of(
                final(self).id@,
                final(self).exp,
                secret@,
            ),
            final(self).token_cache_ok(secret@),
    {
        self.exp = expiry_at(now, exp_in_hour);
        self.token = Some(sign_claim(self.id.as_str(), self.exp, secret));
    }

    /// Sign this record's claim `(id, exp)` with `secret_key`. The signing
    /// path cannot fail, so the result is always the signed token — a
    /// deterministic function of the claim and the secret.
    pub fn generate(&self, secret_key: &str) -> (r: Result<String, TokenMetadataError>)
        ensures
            r matches Ok(t) && t@ == signed_token_of(self.id@, self.exp, secret_key@),
            r matches Ok(t) ==> decoded_claim_of(t@, secret_key@) == Some((self.id@, self.exp)),
    {
        Ok(sign_claim(self.id.as_str(), self.exp, secret_key))
    }

    /// Verify `token` with `secret_key` at the current instant and return its
    /// claims as a record with no cached token. A token that does not decode
    /// is a decoding failure; one that decodes but has expired is an expiry
    /// failure.
    pub fn parse(token: &str, secret_key: &str) -> (r: Result<TokenMetadata, TokenMetadataError>)
        ensures
            r matches Ok(m) ==> decoded_claim_of(token@, secret_key@) == Some((m.id@, m.exp))
                && m.token is None,
            r matches Err(TokenMetadataError::TokenDecodingError(s)) ==> decoded_claim_of(
                token@,
                secret_key@,
            ) is None && s@ == token@,
            r matches Err(TokenMetadataError::TokenExpired(s)) ==> decoded_claim_of(
                token@,
                secret_key@,
            ) is Some && s@ == token@,
            !(r matches Err(TokenMetadataError::UnexpectedToken(_))),
    {
        let now = now_unix();
        match crate::codec::verify_at(token, secret_key, now) {
            Ok(c) => Ok(TokenMetadata { id: c.id, exp: c.exp, token: None }),
            Err(crate::errors::TokenError::TokenDecodingError(s)) => Err(
                TokenMetadataError::TokenDecodingError(s),
            ),
            Err(crate::errors::TokenError::TokenExpired(s)) => Err(
                TokenMetadataError::TokenExpired(s),
            ),
            Err(crate::errors::TokenError::UnexpectedToken(s)) => Err(
                TokenMetadataError::UnexpectedToken(s),
            ),
        }
    }
}

impl TokensDatabase {
    /// The location of the database file.
    pub closed spec fn spec_location(&self) -> Seq<char> {
        self.location@
    }

    /// A store over the database file at `location`.
    pub fn new(location: &str) -> (d: TokensDatabase)
        ensures
            d.spec_location() == location@,
    {
        TokensDatabase { location: location.to_owned() }
    }

    /// Open a connection to the store's database file.
    pub fn connect(&self) -> Result<rusqlite::Connection, rusqlite::Error> {
        open_db(self.location.as_str())
    }

    /// Idempotently ensure the registry table exists. Succeeds when the
    /// schema is already present; fails only when the connection or the
    /// schema statement fails.
    pub fn init(&self) -> (r: Result<(), StorageError>)
        ensures
            r matches Err(e) ==> e is SchemaInitFailed,
    {
        let conn = match self.connect() {
            Ok(c) => c,
            Err(_) => return Err(StorageError::SchemaInitFailed),
        };
        match db_create_schema(&conn) {
            Ok(_) => Ok(()),
            Err(_) => Err(StorageError::SchemaInitFailed),
        }
    }

    /// Every record of the registry, in no guaranteed order. An empty
    /// registry is an empty sequence, not an error.
    pub fn get_all(&self) -> (r: Result<Vec<TokenMetadata>, StorageError>)
        ensures
            r matches Err(e) ==> e is QueryFailed,
    {
        let conn = match self.connect() {
            Ok(c) => c,
            Err(_) => return Err(StorageError::QueryFailed),
        };
        match db_select_all(&conn) {
            Ok(rows) => Ok(records_of_rows(&rows)),
            Err(_) => Err(StorageError::QueryFailed),
        }
    }

    /// The record with the given identifier. `NotFound` carries the
    /// identifier when no such record exists; a driver failure is
    /// `QueryFailed`.
    pub fn get_from_id(&self, id: &str) -> (r: Result<TokenMetadata, StorageError>)
        ensures
            r matches Ok(m) ==> m.id@ == id@,
            r matches Err(StorageError::NotFound(k)) ==> k@ == id@,
            r matches Err(e) ==> e matches StorageError::NotFound(_) || e is QueryFailed,
    {
        let conn = match self.connect() {
            Ok(c) => c,
            Err(_) => return Err(StorageError::QueryFailed),
        };
        match db_select_by_id(&conn, id) {
            Ok(Some(row)) => resolve_lookup(id, Some(record_of_row(row))),
            Ok(None) => resolve_lookup(id, None),
            Err(_) => Err(StorageError::QueryFailed),
        }
    }

    /// The parameterized lookup kept for the two historical call shapes: by
    /// identifier when `id` is given, else by cached token text. At least one
    /// key must be given.
    pub fn get(&self, token: Option<&str>, id: Option<&str>) -> (r: Result<
        TokenMetadata,
        StorageError,
    >)
        requires
            token is Some || id is Some,
        ensures
            id matches Some(i) ==> (r matches Ok(m) ==> m.id@ == i@) && (r matches Err(
                StorageError::NotFound(k),
            ) ==> k@ == i@),
            id is None ==> (token matches Some(t) ==> ((r matches Ok(m) ==> (m.token
                matches Some(mt) && mt@ == t@)) && (r matches Err(StorageError::NotFound(k))
                ==> k@ == t@))),
            r matches Err(e) ==> e matches StorageError::NotFound(_) || e is QueryFailed,
    {
        let conn = match self.connect() {
            Ok(c) => c,
            Err(_) => return Err(StorageError::QueryFailed),
        };
        match id {
            Some(i) => match db_select_by_id(&conn, i) {
                Ok(Some(row)) => resolve_lookup(i, Some(record_of_row(row))),
                Ok(None) => resolve_lookup(i, None),
                Err(_) => Err(StorageError::QueryFailed),
            },
            None => {
                let t = token.unwrap();
                match db_select_by_token(&conn, t) {
                    Ok(Some(row)) => resolve_lookup(t, Some(record_of_row(row))),
                    Ok(None) => resolve_lookup(t, None),
                    Err(_) => Err(StorageError::QueryFailed),
                }
            },
        }
    }

    /// Remove the record with the given identifier, if present. No endpoint
    /// of the service exercises this; the registry supports it for explicit
    /// deregistration.
    pub fn delete(&self, id: &str) -> (r: Result<(), StorageError>)
        ensures
            r matches Err(e) ==> e is QueryFailed,
    {
        let conn = match self.connect() {
            Ok(c) => c,
            Err(_) => return Err(StorageError::QueryFailed),
        };
        match db_delete_by_id(&conn, id) {
            Ok(_) => Ok(()),
            Err(_) => Err(StorageError::QueryFailed),
        }
    }
}

} // verus!
