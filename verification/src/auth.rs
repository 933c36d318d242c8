//! The authorization gate: the per-request decisions that protect the
//! service's two endpoints.
//!
//! The echo path accepts a per-agent bearer token: the credential must be
//! present, its signature must verify, its expiry must lie in the future, and
//! — last and decisively — its identifier must still exist in the registry.
//! Signature validity alone is never sufficient.
//!
//! The listing path accepts a single administrator credential from a separate
//! header, compared for exact equality. The comparison scans every character
//! rather than stopping at the first mismatch, so its duration does not
//! depend on where the strings diverge.
//!
//! Both decisions are pure in their inputs apart from the registry read on
//! the echo path; no authorization path mutates anything.

use vstd::prelude::*;
use vstd::string::StrSliceExecFns;

use crate::apis::AgentResponse;
use crate::codec::{claim_verdict, decoded_claim_of, verify_at, Verdict};
use crate::errors::{ApiError, StorageError, TokenError};
use crate::tokens::{TokenMetadata, TokensDatabase};

verus! {

/// Equality of two strings, scanning every character position instead of
/// returning at the first difference.
pub fn ct_eq(a: &str, b: &str) -> (r: bool)
    ensures
        r == (a@ == b@),
{
    let alen = a.unicode_len();
    let blen = b.unicode_len();
    if alen != blen {
        return false;
    }
    let mut same: bool = true;
    let mut i: usize = 0;
    while i < alen
        invariant
            alen == a@.len(),
            alen == b@.len(),
            i <= alen,
            same == (forall|j: int| 0 <= j < i ==> a@[j] == b@[j]),
        decreases alen - i,
    {
        let ca = a.get_char(i);
        let cb = b.get_char(i);
        same = same && ca == cb;
        i = i + 1;
    }
    proof {
        if same {
            assert(a@ =~= b@);
        }
    }
    same
}

/// Turn the registry's answer about a claimed identity into the request's
/// fate: a record that is found authenticates its identifier, a missing
/// record rejects the claim as an unknown identity, and a driver failure is
/// an internal error.
pub fn resolve_identity(claim_id: &str, lookup: Result<TokenMetadata, StorageError>) -> (r: Result<
    TokenMetadata,
    ApiError,
>)
    ensures
        lookup matches Ok(m) ==> r == Ok::<TokenMetadata, ApiError>(m),
        lookup matches Err(StorageError::NotFound(_)) ==> (r matches Err(
            ApiError::UnAuthorizedToken(s),
        ) && s@ == claim_id@),
        (lookup matches Err(e) && !(e matches StorageError::NotFound(_))) ==> (r matches Err(
            ApiError::InternalServerError(s),
        ) && s@ == "Token registry query failed"@),
{
    match lookup {
        Ok(m) => Ok(m),
        Err(StorageError::NotFound(_)) => Err(ApiError::UnAuthorizedToken(claim_id.to_owned())),
        Err(_) => Err(ApiError::InternalServerError(String::from_str(
            "Token registry query failed",
        ))),
    }
}

/// The echo path's authorization decision at instant `now`: extract the
/// bearer credential, verify it against `secret`, then require that the
/// claimed identifier still exists in the registry. The returned record is
/// the registry's, freshly fetched — never the credential's own claims alone.
pub fn authorize_echo(
    db: &TokensDatabase,
    header: Option<&str>,
    secret: &str,
    now: u64,
) -> (r: Result<TokenMetadata, ApiError>)
    ensures
        header is None <==> r matches Err(ApiError::MissingBearerToken),
        header matches Some(h) ==> match claim_verdict(decoded_claim_of(h@, secret@), now) {
            Verdict::Invalid => r matches Err(ApiError::InvalidToken(s)) && s@ == h@,
            Verdict::Expired(_, _) => r matches Err(ApiError::ExpiredToken(s)) && s@ == h@,
            Verdict::Accepted(id, _) => (r matches Ok(m) ==> m.id@ == id) && (r matches Err(e)
                ==> ((e matches ApiError::UnAuthorizedToken(s) && s@ == id) || e matches
                ApiError::InternalServerError(_))),
        },
{
    let h = match header {
        None => return Err(ApiError::MissingBearerToken),
        Some(h) => h,
    };
    match verify_at(h, secret, now) {
        Ok(claim) => {
            let lookup = db.get_from_id(claim.id.as_str());
            resolve_identity(claim.id.as_str(), lookup)
        },
        Err(TokenError::TokenExpired(_)) => Err(ApiError::ExpiredToken(h.to_owned())),
        Err(_) => Err(ApiError::InvalidToken(h.to_owned())),
    }
}

/// The listing path's authorization decision: the presented credential must
/// equal the configured administrator value exactly. Any other value — a
/// prefix, a case variant, anything — is rejected; a missing credential is
/// rejected as missing.
pub fn authorize_admin(header: Option<&str>, admin_secret: &str) -> (r: Result<(), ApiError>)
    ensures
        r is Ok <==> (header matches Some(h) && h@ == admin_secret@),
        header is None <==> r matches Err(ApiError::MissingBearerToken),
        header matches Some(h) ==> (h@ != admin_secret@ ==> (r matches Err(
            ApiError::UnAuthorizedToken(s),
        ) && s@ == h@)),
{
    match header {
        None => Err(ApiError::MissingBearerToken),
        Some(h) => {
            if ct_eq(h, admin_secret) {
                Ok(())
            } else {
                Err(ApiError::UnAuthorizedToken(h.to_owned()))
            }
        },
    }
}

/// The registry listing: authorized by the administrator credential, it
/// returns every record with its count. Succeeds exactly when the credential
/// matches and the registry read succeeds.
pub fn list_agents(db: &TokensDatabase, header: Option<&str>, admin_secret: &str) -> (r: Result<
    AgentResponse,
    ApiError,
>)
    ensures
        r is Ok ==> (header matches Some(h) && h@ == admin_secret@),
        header is None <==> r matches Err(ApiError::MissingBearerToken),
        header matches Some(h) ==> (h@ != admin_secret@ ==> (r matches Err(
            ApiError::UnAuthorizedToken(s),
        ) && s@ == h@)),
        header matches Some(h) ==> (h@ == admin_secret@ ==> (r is Ok || r matches Err(
            ApiError::InternalServerError(_),
        ))),
        r matches Ok(resp) ==> (resp.agents@.len() <= u16::MAX ==> resp.count
            == resp.agents@.len()) && (resp.agents@.len() > u16::MAX ==> resp.count == u16::MAX),
{
    match authorize_admin(header, admin_secret) {
        Err(e) => Err(e),
        Ok(_) => match db.get_all() {
            Ok(records) => Ok(AgentResponse::over(records)),
            Err(_) => Err(ApiError::InternalServerError(String::from_str(
                "Token registry query failed",
            ))),
        },
    }
}

} // verus!
