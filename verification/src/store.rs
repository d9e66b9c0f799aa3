//! An in-memory table of currency rows, keyed by code.

use vstd::prelude::*;
use crate::model::{Currencie, CurrencieView};

verus! {

/// What a table holds: at most one row for each code.
pub type StoreView = Map<Seq<char>, CurrencieView>;

/// Every row is filed under its own name.
pub open spec fn keyed_by_name(table: StoreView) -> bool {
    forall|code: Seq<char>| #[trigger]
        table.contains_key(code) ==> table[code].name == Some(code)
}

/// Why a row could not be written.
#[derive(Clone, Copy, Debug, PartialEq, Eq, Structural)]
pub enum StoreError {
    /// The row has no name, so there is no code to file it under.
    Unnamed,
}

/// A table of currency rows with one row for each code.
pub struct RateStore {
    rows: Vec<Currencie>,
}

/// Whether the row at position `i` carries `code`.
spec fn holds_at(rows: Seq<Currencie>, code: Seq<char>, i: int) -> bool {
    0 <= i < rows.len() && rows[i]@.name == Some(code)
}

/// Every row has a name and no two rows share one.
spec fn distinct_names(rows: Seq<Currencie>) -> bool {
    &&& forall|i: int| 0 <= i < rows.len() ==> (#[trigger] rows[i])@.name is Some
    &&& forall|i: int, j: int|
        0 <= i < rows.len() && 0 <= j < rows.len() && i != j ==> (#[trigger] rows[i])@.name != (
        #[trigger] rows[j])@.name
}

/// A position at which `code` is held, if there is one.
spec fn slot(rows: Seq<Currencie>, code: Seq<char>) -> int {
    choose|i: int| holds_at(rows, code, i)
}

/// The rows as a map from code to row.
spec fn as_table(rows: Seq<Currencie>) -> StoreView {
    Map::new(
        |code: Seq<char>| exists|i: int| holds_at(rows, code, i),
        |code: Seq<char>| rows[slot(rows, code)]@,
    )
}

/// With distinct names, the row that carries a code is the one the map gives
/// for it.
proof fn lemma_slot(rows: Seq<Currencie>, code: Seq<char>, i: int)
    requires
        distinct_names(rows),
        holds_at(rows, code, i),
    ensures
        as_table(rows).contains_key(code),
        as_table(rows)[code] == rows[i]@,
{
    let k = slot(rows, code);
    assert(holds_at(rows, code, k));
    if k != i {
        assert(rows[k]@.name == rows[i]@.name);
    }
}

/// A code without a row is not in the map.
proof fn lemma_absent(rows: Seq<Currencie>, code: Seq<char>)
    requires
        forall|i: int| !holds_at(rows, code, i),
    ensures
        !as_table(rows).contains_key(code),
{
}

/// Rows with distinct names are filed under their names.
proof fn lemma_keyed(rows: Seq<Currencie>)
    requires
        distinct_names(rows),
    ensures
        keyed_by_name(as_table(rows)),
{
    assert forall|code: Seq<char>| #[trigger] as_table(rows).contains_key(code) implies as_table(
        rows,
    )[code].name == Some(code) by {
        let i = slot(rows, code);
        assert(holds_at(rows, code, i));
    }
}

/// Replacing the row that carries `code` by another row with that name.
proof fn lemma_replace(rows: Seq<Currencie>, i: int, record: Currencie, code: Seq<char>)
    requires
        distinct_names(rows),
        holds_at(rows, code, i),
        record@.name == Some(code),
    ensures
        distinct_names(rows.update(i, record)),
        as_table(rows.update(i, record)) == as_table(rows).insert(code, record@),
{
    let after = rows.update(i, record);
    assert forall|c: Seq<char>, k: int| holds_at(after, c, k) <==> holds_at(rows, c, k) by {}
    assert(distinct_names(after)) by {
        assert forall|a: int, b: int|
            0 <= a < after.len() && 0 <= b < after.len() && a != b implies (#[trigger] after[a])@.name
            != (#[trigger] after[b])@.name by {
            assert(rows[a]@.name == after[a]@.name);
            assert(rows[b]@.name == after[b]@.name);
        }
    }
    let target = as_table(rows).insert(code, record@);
    assert forall|c: Seq<char>| #[trigger] as_table(after).contains_key(c) == target.contains_key(
        c,
    ) by {
        if as_table(after).contains_key(c) {
            let k = slot(after, c);
            assert(holds_at(rows, c, k));
        }
        if as_table(rows).contains_key(c) {
            let k = slot(rows, c);
            assert(holds_at(after, c, k));
        }
        if c == code {
            assert(holds_at(after, c, i));
        }
    }
    assert forall|c: Seq<char>| #[trigger] as_table(after).contains_key(c) implies as_table(
        after,
    )[c] == target[c] by {
        let k = slot(after, c);
        assert(holds_at(after, c, k));
        lemma_slot(after, c, k);
        if c != code {
            assert(holds_at(rows, c, k));
            lemma_slot(rows, c, k);
        } else {
            lemma_slot(after, c, i);
        }
    }
    assert(as_table(after) =~= target);
}

/// Adding a row whose name no other row carries.
proof fn lemma_append(rows: Seq<Currencie>, record: Currencie, code: Seq<char>)
    requires
        distinct_names(rows),
        forall|i: int| !holds_at(rows, code, i),
        record@.name == Some(code),
    ensures
        distinct_names(rows.push(record)),
        as_table(rows.push(record)) == as_table(rows).insert(code, record@),
{
    let after = rows.push(record);
    let last = rows.len() as int;
    assert forall|c: Seq<char>, k: int| holds_at(after, c, k) <==> (holds_at(rows, c, k) || (k
        == last && c == code)) by {}
    assert(distinct_names(after)) by {
        assert forall|a: int, b: int|
            0 <= a < after.len() && 0 <= b < after.len() && a != b implies (#[trigger] after[a])@.name
            != (#[trigger] after[b])@.name by {
            if a < last {
                assert(!holds_at(rows, code, a));
            }
            if b < last {
                assert(!holds_at(rows, code, b));
            }
        }
    }
    let target = as_table(rows).insert(code, record@);
    assert forall|c: Seq<char>| #[trigger] as_table(after).contains_key(c) == target.contains_key(
        c,
    ) by {
        if as_table(after).contains_key(c) {
            let k = slot(after, c);
            assert(holds_at(after, c, k));
        }
        if as_table(rows).contains_key(c) {
            let k = slot(rows, c);
            assert(holds_at(after, c, k));
        }
        if c == code {
            assert(holds_at(after, c, last));
        }
    }
    assert forall|c: Seq<char>| #[trigger] as_table(after).contains_key(c) implies as_table(
        after,
    )[c] == target[c] by {
        let k = slot(after, c);
        assert(holds_at(after, c, k));
        lemma_slot(after, c, k);
        if c != code {
            assert(holds_at(rows, c, k));
            lemma_slot(rows, c, k);
        } else {
            lemma_slot(after, c, last);
        }
    }
    assert(as_table(after) =~= target);
}

/// Rows with distinct names make a map with one entry for each row.
proof fn lemma_size(rows: Seq<Currencie>)
    requires
        distinct_names(rows),
    ensures
        as_table(rows).dom().finite(),
        as_table(rows).len() == rows.len(),
    decreases rows.len(),
{
    if rows.len() == 0 {
        assert(as_table(rows) =~= Map::<Seq<char>, CurrencieView>::empty());
    } else {
        let earlier = rows.drop_last();
        let record = rows.last();
        let code = record@.name->0;
        assert(distinct_names(earlier)) by {
            assert forall|i: int| 0 <= i < earlier.len() implies (#[trigger] earlier[i])@.name is Some by {
                assert(earlier[i] == rows[i]);
            }
            assert forall|i: int, j: int|
                0 <= i < earlier.len() && 0 <= j < earlier.len() && i != j implies (
            #[trigger] earlier[i])@.name != (#[trigger] earlier[j])@.name by {
                assert(earlier[i] == rows[i]);
                assert(earlier[j] == rows[j]);
            }
        }
        assert forall|i: int| !holds_at(earlier, code, i) by {
            if holds_at(earlier, code, i) {
                assert(earlier[i] == rows[i]);
                assert(rows[i]@.name == rows[rows.len() - 1]@.name);
            }
        }
        lemma_size(earlier);
        lemma_append(earlier, record, code);
        lemma_absent(earlier, code);
        assert(earlier.push(record) =~= rows);
    }
}

impl RateStore {
    #[verifier::type_invariant]
    closed spec fn well_formed(self) -> bool {
        distinct_names(self.rows@)
    }

    /// What `upsert` makes of the table: `None` where the row is refused.
    pub open spec fn written(self, record: CurrencieView) -> Option<StoreView> {
        match record.name {
            Some(code) => Some(self@.insert(code, record)),
            None => None,
        }
    }

    /// An empty table.
    pub fn new() -> (store: RateStore)
        ensures
            store@ == Map::<Seq<char>, CurrencieView>::empty(),
    {
        let store = RateStore { rows: Vec::new() };
        assert(store@ =~= Map::<Seq<char>, CurrencieView>::empty());
        store
    }

    /// The number of rows, which is the number of codes that have one.
    pub fn len(&self) -> (n: usize)
        ensures
            self@.dom().finite(),
            n == self@.len(),
    {
        proof {
            use_type_invariant(self);
            lemma_size(self.rows@);
        }
        self.rows.len()
    }

    /// The row for `code`, if the table has one.
    pub fn find_by_code(&self, code: &str) -> (found: Option<&Currencie>)
        ensures
            match found {
                Some(row) => self@.contains_key(code@) && self@[code@] == row@,
                None => !self@.contains_key(code@),
            },
            keyed_by_name(self@),
    {
        proof {
            use_type_invariant(self);
            lemma_keyed(self.rows@);
        }
        match position(&self.rows, code) {
            Some(i) => {
                proof {
                    lemma_slot(self.rows@, code@, i as int);
                }
                Some(&self.rows[i])
            },
            None => {
                proof {
                    lemma_absent(self.rows@, code@);
                }
                None
            },
        }
    }

    /// Whether the table has a row for `code`.
    pub fn contains(&self, code: &str) -> (present: bool)
        ensures
            present == self@.contains_key(code@),
    {
        self.find_by_code(code).is_some()
    }

    /// Writes `record` under its name, replacing the row that was filed
    /// there. A row without a name is refused and the table stays as it was.
    pub fn upsert(&mut self, record: Currencie) -> (outcome: Result<(), StoreError>)
        ensures
            match old(self).written(record@) {
                Some(table) => outcome is Ok && final(self)@ == table,
                None => outcome == Err::<(), StoreError>(StoreError::Unnamed) && final(self)@ == old(self)@,
            },
            keyed_by_name(final(self)@),
    {
        proof {
            use_type_invariant(&*self);
            lemma_keyed(self.rows@);
        }
        let at = match &record.name {
            Some(name) => position(&self.rows, name.as_str()),
            None => {
                return Err(StoreError::Unnamed);
            },
        };
        let ghost before = self.rows@;
        let ghost code = record@.name->0;
        let mut rows: Vec<Currencie> = Vec::new();
        std::mem::swap(&mut rows, &mut self.rows);
        match at {
            Some(i) => {
                proof {
                    lemma_replace(before, i as int, record, code);
                }
                rows.set(i, record);
            },
            None => {
                proof {
                    lemma_append(before, record, code);
                }
                rows.push(record);
            },
        }
        proof {
            lemma_keyed(rows@);
        }
        self.rows = rows;
        Ok(())
    }
}

/// The position of the row for `code`, if there is one.
fn position(rows: &Vec<Currencie>, code: &str) -> (at: Option<usize>)
    ensures
        match at {
            Some(i) => holds_at(rows@, code@, i as int),
            None => forall|i: int| !holds_at(rows@, code@, i),
        },
{
    let wanted = code.to_owned();
    let mut i: usize = 0;
    while i < rows.len()
        invariant
            i <= rows.len(),
            wanted@ == code@,
            forall|k: int| 0 <= k < i ==> !holds_at(rows@, code@, k),
        decreases rows.len() - i,
    {
        let hit = match &rows[i].name {
            Some(name) => *name == wanted,
            None => false,
        };
        if hit {
            return Some(i);
        }
        i += 1;
    }
    None
}

impl View for RateStore {
    type V = StoreView;

    closed spec fn view(&self) -> StoreView {
        as_table(self.rows@)
    }
}

} // verus!
