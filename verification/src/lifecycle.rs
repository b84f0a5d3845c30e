//! What holds of a short code from the request that creates it to the pass
//! that reclaims it, stated over the table as a map.

use vstd::prelude::*;
use crate::link::{expired, Entry};
use crate::resolve::{resolution, ResolveError};
use crate::shorten::{requested_ttl, shortens, step_after, ShortenError, Step};
use crate::store::{expired_codes, insert_outcome, inserted, swept, StoreError, Table};

verus! {

/// Round trip: when a shorten request made at `now` has answered with a
/// code, the code resolves to the very destination of the request at every
/// instant `at` before the lifetime is over. With `at == now` this is a
/// resolve that follows the shorten at once; it asks for a lifetime of at
/// least one second.
pub proof fn lemma_round_trip(
    before: Table,
    after: Table,
    destination: Seq<char>,
    ttl_seconds: Option<i64>,
    now: i64,
    code: Seq<char>,
    at: i64,
)
    requires
        shortens(before, after, destination, ttl_seconds, now, Ok(code)),
        at < now + requested_ttl(ttl_seconds),
    ensures
        resolution(after, code, at) == Ok::<Seq<char>, ResolveError>(destination),
{
}

/// The lifetime ends: from `now` plus the lifetime on, the code of a link
/// shortened at `now` resolves to `Expired`. A lifetime of zero seconds
/// expires the link in the instant it is stored.
pub proof fn lemma_lifetime_ends(
    before: Table,
    after: Table,
    destination: Seq<char>,
    ttl_seconds: Option<i64>,
    now: i64,
    code: Seq<char>,
    at: i64,
)
    requires
        shortens(before, after, destination, ttl_seconds, now, Ok(code)),
        at >= now + requested_ttl(ttl_seconds),
    ensures
        resolution(after, code, at) == Err::<Seq<char>, ResolveError>(ResolveError::Expired),
{
}

/// A shorten request never touches the links that are already stored.
pub proof fn lemma_shorten_keeps_other_links(
    before: Table,
    after: Table,
    destination: Seq<char>,
    ttl_seconds: Option<i64>,
    now: i64,
    answer: Result<Seq<char>, ShortenError>,
    other: Seq<char>,
    at: i64,
)
    requires
        shortens(before, after, destination, ttl_seconds, now, answer),
        before.contains_key(other),
    ensures
        after.contains_key(other),
        after[other] == before[other],
        resolution(after, other, at) == resolution(before, other, at),
{
}

/// A change to a table: an insert, or a reclamation pass.
pub enum Change {
    Insert { code: Seq<char>, entry: Entry },
    Sweep { now: i64 },
}

/// `table` after `change`.
pub open spec fn apply(table: Table, change: Change) -> Table {
    match change {
        Change::Insert { code, entry } => inserted(table, code, entry),
        Change::Sweep { now } => swept(table, now),
    }
}

/// The table that results from applying `changes`, in order, to an empty one.
pub open spec fn replay(changes: Seq<Change>) -> Table
    decreases changes.len(),
{
    if changes.len() == 0 {
        Table::empty()
    } else {
        apply(replay(changes.drop_last()), changes.last())
    }
}

/// `code` is never inserted by `changes`.
pub open spec fn never_inserted(changes: Seq<Change>, code: Seq<char>) -> bool {
    forall|i: int|
        0 <= i < changes.len() ==> !(#[trigger] changes[i] matches Change::Insert { code: c, .. }
            && c == code)
}

/// A code under which nothing is stored resolves to `NotFound`, at any time.
pub proof fn lemma_unknown_code_not_found(table: Table, code: Seq<char>, now: i64)
    requires
        !table.contains_key(code),
    ensures
        resolution(table, code, now) == Err::<Seq<char>, ResolveError>(ResolveError::NotFound),
{
}

/// A code that was never inserted resolves to `NotFound`, whatever else was
/// inserted or reclaimed since the table was empty.
pub proof fn lemma_never_inserted_not_found(changes: Seq<Change>, code: Seq<char>, now: i64)
    requires
        never_inserted(changes, code),
    ensures
        !replay(changes).contains_key(code),
        resolution(replay(changes), code, now) == Err::<Seq<char>, ResolveError>(
            ResolveError::NotFound,
        ),
    decreases changes.len(),
{
    if changes.len() > 0 {
        let earlier = changes.drop_last();
        assert forall|i: int| 0 <= i < earlier.len() implies !(#[trigger] earlier[i] matches Change::Insert {
            code: c,
            ..
        } && c == code) by {
            assert(earlier[i] == changes[i]);
        }
        lemma_never_inserted_not_found(earlier, code, now);
        assert(changes.last() == changes[changes.len() - 1]);
    }
}

/// A stored link whose expiry is `now` or earlier resolves to `Expired`,
/// never to its destination.
pub proof fn lemma_expired_never_resolves(table: Table, code: Seq<char>, now: i64)
    requires
        table.contains_key(code),
        expired(table[code].expires_at, now),
    ensures
        resolution(table, code, now) == Err::<Seq<char>, ResolveError>(ResolveError::Expired),
{
}

/// Two requests that draw the same free code: the insert that comes first
/// succeeds, the second is refused and leaves the first link as it is, its
/// request is told to retry, and with a different free code it succeeds.
/// Afterwards both links are stored and every earlier link is unchanged.
pub proof fn lemma_collision_is_retried(
    table: Table,
    code: Seq<char>,
    first: Entry,
    second: Entry,
    other: Seq<char>,
)
    requires
        !table.contains_key(code),
        !table.contains_key(other),
        other != code,
    ensures
        insert_outcome(table, code) == Ok::<(), StoreError>(()),
        insert_outcome(inserted(table, code, first), code) == Err::<(), StoreError>(
            StoreError::DuplicateCode,
        ),
        inserted(inserted(table, code, first), code, second) == inserted(table, code, first),
        step_after(0, insert_outcome(inserted(table, code, first), code)) == Step::Retry,
        insert_outcome(inserted(table, code, first), other) == Ok::<(), StoreError>(()),
        ({
            let end = inserted(inserted(table, code, first), other, second);
            &&& end[code] == first
            &&& end[other] == second
            &&& forall|c: Seq<char>| #[trigger]
                table.contains_key(c) ==> end.contains_key(c) && end[c] == table[c]
        }),
{
}

/// Reclamation is idempotent: right after a pass nothing is left to reclaim,
/// so a second pass at the same instant removes no link and changes nothing.
pub proof fn lemma_second_pass_removes_nothing(table: Table, now: i64)
    ensures
        expired_codes(swept(table, now), now).len() == 0,
        swept(swept(table, now), now) == swept(table, now),
{
    assert(expired_codes(swept(table, now), now) =~= Set::<Seq<char>>::empty());
    assert(swept(swept(table, now), now) =~= swept(table, now));
}

/// A reclaimed code is unknown, not expired: once a pass at `now` has removed
/// an expired link, its code resolves to `NotFound` at any time, and the code
/// is free to be used again.
pub proof fn lemma_reclaimed_code_not_found(table: Table, code: Seq<char>, now: i64, at: i64)
    requires
        table.contains_key(code),
        expired(table[code].expires_at, now),
    ensures
        resolution(swept(table, now), code, at) == Err::<Seq<char>, ResolveError>(
            ResolveError::NotFound,
        ),
        insert_outcome(swept(table, now), code) == Ok::<(), StoreError>(()),
{
}

/// A stored link is never altered: whatever the change, its entry afterwards
/// is its entry before, unless the change is a pass at or after its expiry,
/// which removes it.
pub proof fn lemma_stored_links_never_change(table: Table, change: Change, code: Seq<char>)
    requires
        table.contains_key(code),
    ensures
        apply(table, change).contains_key(code) ==> apply(table, change)[code] == table[code],
        !apply(table, change).contains_key(code) ==> (change matches Change::Sweep { now }
            && expired(table[code].expires_at, now)),
{
}

/// Reclamation leaves live links alone: a link that is live at `now` resolves
/// after a pass at `now` exactly as it did before.
pub proof fn lemma_live_links_survive(table: Table, code: Seq<char>, now: i64, at: i64)
    requires
        table.contains_key(code),
        !expired(table[code].expires_at, now),
    ensures
        resolution(swept(table, now), code, at) == resolution(table, code, at),
{
}

} // verus!
