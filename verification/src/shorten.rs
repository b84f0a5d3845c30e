//! Shortening: a fresh code for a destination, with a bounded number of
//! attempts when candidates collide.

use vstd::prelude::*;
use crate::clock::unix_now;
use crate::code::{generate, is_code};
use crate::link::Entry;
use crate::store::{insert_outcome, inserted, LinkStore, StoreError, Table};

verus! {

/// Lifetime of a link, in seconds, when the request names none: 72 hours.
pub const DEFAULT_TTL_SECONDS: i64 = 259_200;

/// How many candidate codes one request may try.
pub const MAX_ATTEMPTS: u32 = 5;

/// Why a destination could not be shortened.
#[derive(Debug, Clone, Copy, PartialEq, Eq, Structural)]
pub enum ShortenError {
    /// The destination is empty or the lifetime is negative.
    InvalidRequest,
    /// Every candidate code collided with a stored one.
    GenerationExhausted,
    /// The table could not be written.
    StorageFailure,
}

/// What to do after one attempt to insert a candidate.
#[derive(Debug, Clone, Copy, PartialEq, Eq, Structural)]
pub enum Step {
    /// The candidate is stored: it is the answer.
    Done,
    /// The candidate collided: draw another one.
    Retry,
    /// Stop, with this error.
    GiveUp(ShortenError),
}

/// A request is valid when its destination is not empty and its lifetime, if
/// it names one, is not negative.
pub open spec fn valid_request(destination: Seq<char>, ttl_seconds: Option<i64>) -> bool {
    &&& destination.len() > 0
    &&& ttl_seconds matches Some(ttl) ==> ttl >= 0
}

/// The lifetime a request asks for.
pub open spec fn requested_ttl(ttl_seconds: Option<i64>) -> int {
    match ttl_seconds {
        Some(ttl) => ttl as int,
        None => DEFAULT_TTL_SECONDS as int,
    }
}

/// The expiry of a link created at `now`: `now` plus the lifetime. An expiry
/// past the last instant an `i64` can name is recorded as none, since no
/// clock reading will ever reach it.
pub open spec fn expiry_after(now: i64, ttl_seconds: Option<i64>) -> Option<i64> {
    let at = now + requested_ttl(ttl_seconds);
    if at <= i64::MAX {
        Some(at as i64)
    } else {
        None
    }
}

/// `table` with the link of a request made at `now` stored under `code`.
pub open spec fn with_link(
    table: Table,
    code: Seq<char>,
    destination: Seq<char>,
    ttl_seconds: Option<i64>,
    now: i64,
) -> Table {
    table.insert(code, Entry { destination, expires_at: expiry_after(now, ttl_seconds) })
}

/// The retry policy: success ends the request, an unreachable table fails it
/// at once, and a collision asks for another candidate until `MAX_ATTEMPTS`
/// candidates have collided.
pub open spec fn step_after(collisions: u32, outcome: Result<(), StoreError>) -> Step {
    match outcome {
        Ok(_) => Step::Done,
        Err(StoreError::StoreUnavailable) => Step::GiveUp(ShortenError::StorageFailure),
        Err(StoreError::DuplicateCode) => if collisions + 1 < MAX_ATTEMPTS {
            Step::Retry
        } else {
            Step::GiveUp(ShortenError::GenerationExhausted)
        },
    }
}

/// Checks a request made at `now` and computes the expiry of its link.
pub fn request_expiry(destination: &str, ttl_seconds: Option<i64>, now: i64) -> (r: Result<
    Option<i64>,
    ShortenError,
>)
    ensures
        r == if valid_request(destination@, ttl_seconds) {
            Ok::<Option<i64>, ShortenError>(expiry_after(now, ttl_seconds))
        } else {
            Err::<Option<i64>, ShortenError>(ShortenError::InvalidRequest)
        },
{
    if destination.is_empty() {
        return Err(ShortenError::InvalidRequest);
    }
    let ttl = match ttl_seconds {
        Some(ttl) => ttl,
        None => DEFAULT_TTL_SECONDS,
    };
    if ttl < 0 {
        return Err(ShortenError::InvalidRequest);
    }
    Ok(now.checked_add(ttl))
}

/// Decides what follows an insert, given how many candidates of this request
/// collided before it.
pub fn after_insert(collisions: u32, outcome: Result<(), StoreError>) -> (step: Step)
    ensures
        step == step_after(collisions, outcome),
{
    match outcome {
        Ok(_) => Step::Done,
        Err(StoreError::StoreUnavailable) => Step::GiveUp(ShortenError::StorageFailure),
        Err(StoreError::DuplicateCode) => {
            if collisions < MAX_ATTEMPTS - 1 {
                Step::Retry
            } else {
                Step::GiveUp(ShortenError::GenerationExhausted)
            }
        },
    }
}

/// Tries one candidate: stores the link under `candidate` if the code is
/// free, and says what follows.
pub fn attempt(
    store: &mut LinkStore,
    candidate: &str,
    destination: &str,
    expires_at: Option<i64>,
    collisions: u32,
) -> (step: Step)
    ensures
        step == step_after(collisions, insert_outcome(old(store)@, candidate@)),
        final(store)@ == inserted(
            old(store)@,
            candidate@,
            (Entry { destination: destination@, expires_at }),
        ),
{
    let outcome = store.insert(candidate.to_owned(), destination.to_owned(), expires_at);
    after_insert(collisions, outcome)
}

/// A shorten answer with the code as characters.
pub open spec fn answered(r: Result<String, ShortenError>) -> Result<Seq<char>, ShortenError> {
    match r {
        Ok(code) => Ok(code@),
        Err(e) => Err(e),
    }
}

/// What a shorten request made at `now` may answer and do to the table.
///
/// An invalid request is refused and changes nothing. A valid one stores
/// exactly one link, under a well-formed code that was free, and answers
/// with that code; or it answers `GenerationExhausted` and changes nothing,
/// which takes a well-formed code that is already stored.
pub open spec fn shortens(
    before: Table,
    after: Table,
    destination: Seq<char>,
    ttl_seconds: Option<i64>,
    now: i64,
    answer: Result<Seq<char>, ShortenError>,
) -> bool {
    if valid_request(destination, ttl_seconds) {
        match answer {
            Ok(code) => {
                &&& is_code(code)
                &&& !before.contains_key(code)
                &&& after == with_link(before, code, destination, ttl_seconds, now)
            },
            Err(e) => {
                &&& e == ShortenError::GenerationExhausted
                &&& after == before
                &&& exists|taken: Seq<char>| is_code(taken) && before.contains_key(taken)
            },
        }
    } else {
        &&& answer == Err::<Seq<char>, ShortenError>(ShortenError::InvalidRequest)
        &&& after == before
    }
}

/// Shortens `destination` as of `now`: stores it under a freshly generated
/// code that expires after the requested lifetime, and answers with the
/// code. A candidate that collides with a stored code is replaced by a fresh
/// one, up to `MAX_ATTEMPTS` candidates in all.
pub fn shorten_at(
    store: &mut LinkStore,
    destination: &str,
    ttl_seconds: Option<i64>,
    now: i64,
) -> (r: Result<String, ShortenError>)
    ensures
        shortens(old(store)@, final(store)@, destination@, ttl_seconds, now, answered(r)),
{
    let expires_at = match request_expiry(destination, ttl_seconds, now) {
        Ok(expires_at) => expires_at,
        Err(e) => {
            return Err(e);
        },
    };
    let ghost before = store@;
    let mut collisions: u32 = 0;
    loop
        invariant
            before == old(store)@,
            store@ == before,
            valid_request(destination@, ttl_seconds),
            collisions < MAX_ATTEMPTS,
            collisions > 0 ==> exists|taken: Seq<char>| is_code(taken) && before.contains_key(taken),
            expires_at == expiry_after(now, ttl_seconds),
        decreases MAX_ATTEMPTS - collisions,
    {
        let candidate = generate();
        match attempt(store, candidate.as_str(), destination, expires_at, collisions) {
            Step::Done => {
                return Ok(candidate);
            },
            Step::Retry => {
                assert(is_code(candidate@) && before.contains_key(candidate@));
                collisions += 1;
            },
            Step::GiveUp(e) => {
                assert(is_code(candidate@) && before.contains_key(candidate@));
                return Err(e);
            },
        }
    }
}

/// Shortens `destination` as of the moment of the call.
pub fn shorten(store: &mut LinkStore, destination: &str, ttl_seconds: Option<i64>) -> (r: Result<
    String,
    ShortenError,
>)
    ensures
        exists|now: i64| #[trigger]
            shortens(old(store)@, final(store)@, destination@, ttl_seconds, now, answered(r)),
{
    let now = unix_now();
    let r = shorten_at(store, destination, ttl_seconds, now);
    assert(shortens(old(store)@, store@, destination@, ttl_seconds, now, answered(r)));
    r
}

} // verus!
