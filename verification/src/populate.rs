//! The rows the interval table starts out with.

use vstd::prelude::*;
use crate::model::{Interval, IntervalView};
use crate::text::{holds_text, texts};

verus! {

/// The views of a list of interval rows.
pub open spec fn intervals_view(rows: Seq<Interval>) -> Seq<IntervalView> {
    rows.map_values(|row: Interval| row@)
}

/// The row for `name` if the table has none under that name, else nothing.
pub open spec fn seed_row(name: Seq<char>, stored: Seq<Seq<char>>) -> Seq<IntervalView> {
    if stored.contains(name) {
        Seq::empty()
    } else {
        seq![IntervalView::named(name)]
    }
}

/// The rows to insert into a table that holds rows under the names
/// `stored`: one for each of day, week, month and year that is not there
/// yet, in that order.
pub open spec fn seed_rows(stored: Seq<Seq<char>>) -> Seq<IntervalView> {
    seed_row("Day"@, stored) + seed_row("Week"@, stored) + seed_row("Month"@, stored) + seed_row(
        "Year"@,
        stored,
    )
}

/// Adds the row for `name` to `rows` unless the table has one.
fn seed(name: &str, stored: &Vec<String>, rows: &mut Vec<Interval>)
    ensures
        intervals_view(final(rows)@) == intervals_view(old(rows)@) + seed_row(name@, texts(stored@)),
{
    let ghost before = intervals_view(rows@);
    if !holds_text(stored, name) {
        rows.push(Interval::named(name));
        assert(intervals_view(rows@) =~= before + seq![IntervalView::named(name@)]);
    } else {
        assert(intervals_view(rows@) =~= before + Seq::<IntervalView>::empty());
    }
}

/// Decides which rows the interval table still needs.
///
/// `stored` are the names the table already has rows for. The rows that come
/// back carry a name and nothing else; the table keys them.
pub fn populate(stored: &Vec<String>) -> (missing: Vec<Interval>)
    ensures
        intervals_view(missing@) == seed_rows(texts(stored@)),
{
    let mut rows: Vec<Interval> = Vec::new();
    assert(intervals_view(rows@) =~= Seq::<IntervalView>::empty());
    seed("Day", stored, &mut rows);
    seed("Week", stored, &mut rows);
    seed("Month", stored, &mut rows);
    seed("Year", stored, &mut rows);
    assert(intervals_view(rows@) =~= seed_rows(texts(stored@)));
    rows
}

/// A table that has rows under all four names needs none.
pub proof fn lemma_full_table_needs_nothing(stored: Seq<Seq<char>>)
    requires
        stored.contains("Day"@),
        stored.contains("Week"@),
        stored.contains("Month"@),
        stored.contains("Year"@),
    ensures
        seed_rows(stored) == Seq::<IntervalView>::empty(),
{
    assert(seed_rows(stored) =~= Seq::<IntervalView>::empty());
}

/// Every row that is asked for carries one of the four names and nothing
/// else, and the table has no row under that name.
pub proof fn lemma_seed_rows_are_new(stored: Seq<Seq<char>>, i: int)
    requires
        0 <= i < seed_rows(stored).len(),
    ensures
        seed_rows(stored)[i].name is Some,
        !stored.contains(seed_rows(stored)[i].name->0),
        seed_rows(stored)[i] == IntervalView::named(seed_rows(stored)[i].name->0),
        ({
            let name = seed_rows(stored)[i].name->0;
            name == "Day"@ || name == "Week"@ || name == "Month"@ || name == "Year"@
        }),
{
}

/// Seeding twice adds nothing: once the rows that were asked for are in the
/// table, beside those that were there, no row is asked for.
pub proof fn lemma_seeded_table_needs_nothing(stored: Seq<Seq<char>>, after: Seq<Seq<char>>)
    requires
        forall|name: Seq<char>| stored.contains(name) ==> after.contains(name),
        forall|i: int|
            0 <= i < seed_rows(stored).len() ==> after.contains(
                (#[trigger] seed_rows(stored)[i]).name->0,
            ),
    ensures
        seed_rows(after) == Seq::<IntervalView>::empty(),
{
    let day = seed_row("Day"@, stored);
    let week = seed_row("Week"@, stored);
    let month = seed_row("Month"@, stored);
    let year = seed_row("Year"@, stored);
    let all = seed_rows(stored);
    if !stored.contains("Day"@) {
        assert(all[0] == IntervalView::named("Day"@));
    }
    if !stored.contains("Week"@) {
        assert(all[day.len() as int] == IntervalView::named("Week"@));
    }
    if !stored.contains("Month"@) {
        assert(all[(day.len() + week.len()) as int] == IntervalView::named("Month"@));
    }
    if !stored.contains("Year"@) {
        assert(all[(day.len() + week.len() + month.len()) as int] == IntervalView::named("Year"@));
    }
    lemma_full_table_needs_nothing(after);
}

} // verus!
