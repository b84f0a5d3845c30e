//! Resolution: from a code to its destination, under the expiry policy.

use vstd::prelude::*;
use crate::clock::unix_now;
use crate::link::{expired, Entry, Link};
use crate::store::{found, row_entry, LinkStore, StoreError, Table};

verus! {

/// Why a code does not resolve.
#[derive(Debug, Clone, Copy, PartialEq, Eq, Structural)]
pub enum ResolveError {
    /// No link is stored under the code.
    NotFound,
    /// A link is stored under the code, and it is past its expiry.
    Expired,
    /// The table could not be read.
    StorageFailure,
}

/// What a lookup that found `row` resolves to at `now`: the destination of a
/// live link, as stored.
pub open spec fn row_resolution(row: Option<Entry>, now: i64) -> Result<Seq<char>, ResolveError> {
    match row {
        None => Err(ResolveError::NotFound),
        Some(entry) => if expired(entry.expires_at, now) {
            Err(ResolveError::Expired)
        } else {
            Ok(entry.destination)
        },
    }
}

/// What a lookup resolves to at `now`, a failed lookup included.
pub open spec fn lookup_resolution(
    lookup: Result<Option<Entry>, StoreError>,
    now: i64,
) -> Result<Seq<char>, ResolveError> {
    match lookup {
        Ok(row) => row_resolution(row, now),
        Err(_) => Err(ResolveError::StorageFailure),
    }
}

/// What `code` resolves to in `table` at `now`.
pub open spec fn resolution(table: Table, code: Seq<char>, now: i64) -> Result<
    Seq<char>,
    ResolveError,
> {
    row_resolution(found(table, code), now)
}

/// The entries behind a lookup's answer.
pub open spec fn lookup_entry(lookup: Result<Option<Link>, StoreError>) -> Result<
    Option<Entry>,
    StoreError,
> {
    match lookup {
        Ok(row) => Ok(row_entry(row)),
        Err(e) => Err(e),
    }
}

/// A resolution with the destination as characters.
pub open spec fn resolved(r: Result<String, ResolveError>) -> Result<Seq<char>, ResolveError> {
    match r {
        Ok(destination) => Ok(destination@),
        Err(e) => Err(e),
    }
}

/// Applies the expiry policy to the answer of a lookup made at `now`: a
/// missing row is `NotFound`, an expired one `Expired`, a failed lookup
/// `StorageFailure`; otherwise the destination comes back unchanged.
pub fn resolve_lookup(lookup: Result<Option<Link>, StoreError>, now: i64) -> (r: Result<
    String,
    ResolveError,
>)
    ensures
        resolved(r) == lookup_resolution(lookup_entry(lookup), now),
{
    match lookup {
        Err(_) => Err(ResolveError::StorageFailure),
        Ok(None) => Err(ResolveError::NotFound),
        Ok(Some(link)) => {
            if link.is_expired(now) {
                Err(ResolveError::Expired)
            } else {
                Ok(link.destination)
            }
        },
    }
}

/// Resolves `code` against `store` as of `now`. The table is only read: an
/// expired link stays where it is until it is reclaimed.
pub fn resolve_at(store: &LinkStore, code: &str, now: i64) -> (r: Result<String, ResolveError>)
    ensures
        resolved(r) == resolution(store@, code@, now),
{
    resolve_lookup(Ok(store.lookup(code)), now)
}

/// Resolves `code` against `store` as of the moment of the call.
pub fn resolve(store: &LinkStore, code: &str) -> (r: Result<String, ResolveError>)
    ensures
        exists|now: i64| resolved(r) == #[trigger] resolution(store@, code@, now),
{
    let now = unix_now();
    let r = resolve_at(store, code, now);
    assert(resolved(r) == resolution(store@, code@, now));
    r
}

} // verus!
