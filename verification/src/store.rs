//! The link table: at most one link per code.

use vstd::prelude::*;
use crate::link::{expired, Entry, Link};

verus! {

/// The mathematical content of a link table: a finite map from code to entry.
pub type Table = Map<Seq<char>, Entry>;

/// Why a table operation failed.
#[derive(Debug, Clone, Copy, PartialEq, Eq, Structural)]
pub enum StoreError {
    /// A link with this code is already stored.
    DuplicateCode,
    /// The storage behind the table cannot be reached.
    StoreUnavailable,
}

/// What inserting under `code` answers: a taken code is refused.
pub open spec fn insert_outcome(table: Table, code: Seq<char>) -> Result<(), StoreError> {
    if table.contains_key(code) {
        Err(StoreError::DuplicateCode)
    } else {
        Ok(())
    }
}

/// `table` after an insert under `code`: a refused insert changes nothing.
pub open spec fn inserted(table: Table, code: Seq<char>, entry: Entry) -> Table {
    if table.contains_key(code) {
        table
    } else {
        table.insert(code, entry)
    }
}

/// What looking `code` up finds.
pub open spec fn found(table: Table, code: Seq<char>) -> Option<Entry> {
    if table.contains_key(code) {
        Some(table[code])
    } else {
        None
    }
}

/// The codes of `table` whose links are expired at `now`.
pub open spec fn expired_codes(table: Table, now: i64) -> Set<Seq<char>> {
    Set::new(|c: Seq<char>| table.contains_key(c) && expired(table[c].expires_at, now))
}

/// `table` without the links that are expired at `now`.
pub open spec fn swept(table: Table, now: i64) -> Table {
    table.remove_keys(expired_codes(table, now))
}

/// The entry that a fetched row stands for.
pub open spec fn row_entry(row: Option<Link>) -> Option<Entry> {
    match row {
        Some(link) => Some(link.entry()),
        None => None,
    }
}

/// A link table held in memory.
pub struct LinkStore {
    rows: Vec<Link>,
}

/// Row `i` of `rows` carries code `c`.
spec fn row_has_code(rows: Seq<Link>, i: int, c: Seq<char>) -> bool {
    0 <= i < rows.len() && rows[i].code@ == c
}

/// No two rows carry the same code.
spec fn distinct_codes(rows: Seq<Link>) -> bool {
    forall|i: int, j: int| 0 <= i < j < rows.len() ==> rows[i].code@ != rows[j].code@
}

/// The table that `rows` represent: each code that some row carries, mapped
/// to the entry of such a row. With distinct codes there is one such row.
spec fn table_of(rows: Seq<Link>) -> Table {
    Map::new(
        |c: Seq<char>| exists|i: int| row_has_code(rows, i, c),
        |c: Seq<char>| rows[choose|i: int| row_has_code(rows, i, c)].entry(),
    )
}

/// Every row is in the table, under its code.
proof fn lemma_row_in_table(rows: Seq<Link>, i: int)
    requires
        distinct_codes(rows),
        0 <= i < rows.len(),
    ensures
        table_of(rows).contains_key(rows[i].code@),
        table_of(rows)[rows[i].code@] == rows[i].entry(),
{
    let c = rows[i].code@;
    assert(row_has_code(rows, i, c));
    let j = choose|j: int| row_has_code(rows, j, c);
    assert(row_has_code(rows, j, c));
    assert(j == i);
}

/// Appending a row with a new code inserts its entry into the table.
proof fn lemma_push(rows: Seq<Link>, link: Link)
    requires
        distinct_codes(rows),
        !table_of(rows).contains_key(link.code@),
    ensures
        distinct_codes(rows.push(link)),
        table_of(rows.push(link)) == table_of(rows).insert(link.code@, link.entry()),
{
    let after = rows.push(link);
    let last = rows.len() as int;
    assert forall|i: int, j: int| 0 <= i < j < after.len() implies after[i].code@
        != after[j].code@ by {
        if j == last {
            assert(row_has_code(rows, i, rows[i].code@));
        }
    }
    let target = table_of(rows).insert(link.code@, link.entry());
    assert forall|c: Seq<char>| table_of(after).contains_key(c) <==> target.contains_key(c) by {
        if table_of(after).contains_key(c) {
            let i = choose|i: int| row_has_code(after, i, c);
            if i < last {
                assert(row_has_code(rows, i, c));
            }
        }
        if table_of(rows).contains_key(c) {
            let i = choose|i: int| row_has_code(rows, i, c);
            assert(row_has_code(after, i, c));
        }
        if c == link.code@ {
            assert(row_has_code(after, last, c));
        }
    }
    assert forall|c: Seq<char>| table_of(after).contains_key(c) implies table_of(after)[c]
        == target[c] by {
        let i = choose|i: int| row_has_code(after, i, c);
        lemma_row_in_table(after, i);
        if i < last {
            lemma_row_in_table(rows, i);
            assert(after[i].code@ != after[last].code@);
        }
    }
    assert(table_of(after) =~= target);
}

/// Moving the last row into place `i` removes the code of row `i` from the
/// table and leaves the rest as it is.
proof fn lemma_swap_remove(rows: Seq<Link>, i: int)
    requires
        distinct_codes(rows),
        0 <= i < rows.len(),
    ensures
        distinct_codes(rows.update(i, rows.last()).drop_last()),
        table_of(rows.update(i, rows.last()).drop_last()) == table_of(rows).remove(rows[i].code@),
{
    let after = rows.update(i, rows.last()).drop_last();
    let last = rows.len() - 1;
    let gone = rows[i].code@;
    // Row `j` of `after` is row `origin(j)` of `rows`.
    let origin = |j: int| if j == i { last } else { j };
    assert forall|j: int| 0 <= j < after.len() implies after[j] == rows[#[trigger] origin(j)]
        && origin(j) != i by {}
    assert forall|j: int, k: int| 0 <= j < k < after.len() implies after[j].code@
        != after[k].code@ by {
        let a = origin(j);
        let b = origin(k);
        assert(after[j] == rows[a] && after[k] == rows[b]);
        if a < b {
            assert(rows[a].code@ != rows[b].code@);
        } else {
            assert(b < a);
            assert(rows[b].code@ != rows[a].code@);
        }
    }
    let target = table_of(rows).remove(gone);
    assert forall|c: Seq<char>| table_of(after).contains_key(c) <==> target.contains_key(c) by {
        if table_of(after).contains_key(c) {
            let j = choose|j: int| row_has_code(after, j, c);
            let a = origin(j);
            assert(after[j] == rows[a] && a != i);
            assert(row_has_code(rows, a, c));
            if a < i {
                assert(rows[a].code@ != rows[i].code@);
            } else {
                assert(rows[i].code@ != rows[a].code@);
            }
        }
        if target.contains_key(c) {
            let a = choose|a: int| row_has_code(rows, a, c);
            assert(a != i);
            if a == last {
                assert(row_has_code(after, i, c));
            } else {
                assert(row_has_code(after, a, c));
            }
        }
    }
    assert forall|c: Seq<char>| table_of(after).contains_key(c) implies table_of(after)[c]
        == target[c] by {
        let j = choose|j: int| row_has_code(after, j, c);
        lemma_row_in_table(after, j);
        let a = origin(j);
        assert(after[j] == rows[a]);
        lemma_row_in_table(rows, a);
    }
    assert(table_of(after) =~= target);
}

/// The table has as many codes as there are rows.
proof fn lemma_size(rows: Seq<Link>)
    requires
        distinct_codes(rows),
    ensures
        table_of(rows).dom().finite(),
        table_of(rows).dom().len() == rows.len(),
    decreases rows.len(),
{
    if rows.len() == 0 {
        assert(table_of(rows).dom() =~= Set::<Seq<char>>::empty());
    } else {
        let front = rows.drop_last();
        let link = rows.last();
        assert(rows =~= front.push(link));
        assert(distinct_codes(front));
        lemma_size(front);
        if table_of(front).contains_key(link.code@) {
            let i = choose|i: int| row_has_code(front, i, link.code@);
            assert(rows[i].code@ != rows[rows.len() - 1].code@);
        }
        lemma_push(front, link);
    }
}

impl View for LinkStore {
    type V = Table;

    closed spec fn view(&self) -> Table {
        table_of(self.rows@)
    }
}

impl LinkStore {
    #[verifier::type_invariant]
    spec fn unique_codes(self) -> bool {
        distinct_codes(self.rows@)
    }

    /// An empty table.
    pub fn new() -> (store: LinkStore)
        ensures
            store@ == Table::empty(),
    {
        let store = LinkStore { rows: Vec::new() };
        assert(store@ =~= Table::empty());
        store
    }

    /// The number of links stored, live or expired.
    pub fn len(&self) -> (n: usize)
        ensures
            self@.dom().finite(),
            n == self@.dom().len(),
    {
        proof {
            use_type_invariant(self);
            lemma_size(self.rows@);
        }
        self.rows.len()
    }

    /// Stores a new link under `code`, unless the code is taken. A taken code,
    /// whether its link is live or expired, is never overwritten.
    pub fn insert(&mut self, code: String, destination: String, expires_at: Option<i64>) -> (r:
        Result<(), StoreError>)
        ensures
            r == insert_outcome(old(self)@, code@),
            final(self)@ == inserted(
                old(self)@,
                code@,
                (Entry { destination: destination@, expires_at }),
            ),
    {
        if self.position(&code).is_some() {
            return Err(StoreError::DuplicateCode);
        }
        let link = Link { code, destination, expires_at };
        proof {
            use_type_invariant(&*self);
            lemma_push(self.rows@, link);
        }
        let mut rows = self.take_rows();
        rows.push(link);
        self.rows = rows;
        Ok(())
    }

    /// A copy of the link stored under `code`, whatever its expiry says.
    pub fn lookup(&self, code: &str) -> (row: Option<Link>)
        ensures
            row_entry(row) == found(self@, code@),
            row matches Some(link) ==> link.code@ == code@,
    {
        let key = code.to_owned();
        match self.position(&key) {
            Some(i) => {
                proof {
                    use_type_invariant(self);
                    lemma_row_in_table(self.rows@, i as int);
                }
                let hit = &self.rows[i];
                Some(
                    Link {
                        code: key,
                        destination: hit.destination.clone(),
                        expires_at: hit.expires_at,
                    },
                )
            },
            None => None,
        }
    }

    /// Removes every link that is expired at `now` and says how many that
    /// were. Links that are live at `now` are left as they are.
    pub fn delete_expired(&mut self, now: i64) -> (removed: usize)
        ensures
            final(self)@ == swept(old(self)@, now),
            expired_codes(old(self)@, now).finite(),
            removed == expired_codes(old(self)@, now).len(),
    {
        proof {
            use_type_invariant(&*self);
        }
        let ghost before = self.rows@;
        let mut rows = self.take_rows();
        let total = rows.len();
        let mut removed: usize = 0;
        let mut i: usize = 0;
        while i < rows.len()
            invariant
                self.rows@.len() == 0,
                distinct_codes(before),
                distinct_codes(rows@),
                i <= rows.len(),
                removed + rows.len() == total == before.len(),
                forall|j: int| 0 <= j < i ==> !expired(#[trigger] rows[j].expires_at, now),
                forall|c: Seq<char>| #[trigger]
                    table_of(rows@).contains_key(c) ==> table_of(before).contains_key(c)
                        && table_of(rows@)[c] == table_of(before)[c],
                forall|c: Seq<char>| #[trigger]
                    table_of(before).contains_key(c) && !expired(table_of(before)[c].expires_at, now)
                        ==> table_of(rows@).contains_key(c),
            decreases rows.len() - i,
        {
            if rows[i].is_expired(now) {
                proof {
                    lemma_swap_remove(rows@, i as int);
                    lemma_row_in_table(rows@, i as int);
                }
                rows.swap_remove(i);
                removed += 1;
            } else {
                i += 1;
            }
        }
        proof {
            let kept = table_of(rows@);
            let gone = expired_codes(table_of(before), now);
            assert forall|c: Seq<char>| kept.contains_key(c) implies !expired(
                kept[c].expires_at,
                now,
            ) by {
                let j = choose|j: int| row_has_code(rows@, j, c);
                lemma_row_in_table(rows@, j);
            }
            assert(kept =~= swept(table_of(before), now));
            lemma_size(before);
            lemma_size(rows@);
            assert(kept.dom().disjoint(gone));
            assert(kept.dom() + gone =~= table_of(before).dom());
            vstd::set_lib::lemma_len_subset(gone, table_of(before).dom());
            vstd::set_lib::lemma_set_disjoint_lens(kept.dom(), gone);
        }
        self.rows = rows;
        removed
    }

    /// Moves the rows out and leaves the table empty, for the caller to put
    /// them back once they are changed.
    fn take_rows(&mut self) -> (rows: Vec<Link>)
        ensures
            rows@ == old(self).rows@,
            final(self).rows@.len() == 0,
    {
        let mut rows: Vec<Link> = Vec::new();
        std::mem::swap(&mut self.rows, &mut rows);
        rows
    }

    /// Index of the row that carries `code`, if there is one.
    fn position(&self, code: &String) -> (at: Option<usize>)
        ensures
            match at {
                Some(i) => i < self.rows@.len() && self.rows@[i as int].code@ == code@
                    && self@.contains_key(code@),
                None => !self@.contains_key(code@),
            },
    {
        let mut i: usize = 0;
        while i < self.rows.len()
            invariant
                i <= self.rows@.len(),
                forall|j: int| 0 <= j < i ==> self.rows@[j].code@ != code@,
            decreases self.rows@.len() - i,
        {
            if self.rows[i].code == *code {
                assert(row_has_code(self.rows@, i as int, code@));
                return Some(i);
            }
            i += 1;
        }
        None
    }
}

} // verus!
