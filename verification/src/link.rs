//! Links and the expiry policy.

use vstd::prelude::*;

verus! {

/// A stored link: the short code, the URL it stands for, and the instant
/// (seconds since the Unix epoch) from which it no longer resolves. A link
/// without an expiry never expires.
#[derive(Debug, PartialEq, Eq)]
pub struct Link {
    pub code: String,
    pub destination: String,
    pub expires_at: Option<i64>,
}

/// What a table records under a code.
pub struct Entry {
    pub destination: Seq<char>,
    pub expires_at: Option<i64>,
}

/// The expiry policy: a link is expired at `now` when it has an expiry and
/// that instant is `now` or earlier. A link is live exactly when it is not
/// expired.
pub open spec fn expired(expires_at: Option<i64>, now: i64) -> bool {
    match expires_at {
        Some(at) => at <= now,
        None => false,
    }
}

impl Link {
    /// The table entry this link stands for.
    pub open spec fn entry(&self) -> Entry {
        Entry { destination: self.destination@, expires_at: self.expires_at }
    }

    /// Whether the link is expired at `now`.
    pub fn is_expired(&self, now: i64) -> (b: bool)
        ensures
            b == expired(self.expires_at, now),
    {
        match self.expires_at {
            Some(at) => at <= now,
            None => false,
        }
    }
}

} // verus!
