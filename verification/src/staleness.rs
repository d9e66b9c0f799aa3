//! Decides whether a stored rate has to be fetched again.

use vstd::prelude::*;
use vstd::multiset::group_multiset_axioms;
use vstd::seq_lib::to_multiset_build;
use crate::day::Day;
use crate::model::{Currencie, CurrencieView};

verus! {

/// How a code stands on a given day.
#[derive(Clone, Copy, Debug, PartialEq, Eq, Structural)]
pub enum Freshness {
    /// The row was confirmed today, or on a day that is not before today.
    Fresh,
    /// The row was last confirmed before today, or never.
    Stale,
    /// There is no row for the code.
    Missing,
}

/// The standing of a row, or of its absence, on `today`.
pub open spec fn freshness(record: Option<CurrencieView>, today: Day) -> Freshness {
    match record {
        None => Freshness::Missing,
        Some(row) => match row.last_update_day {
            None => Freshness::Stale,
            Some(confirmed) => if today.is_after(confirmed) {
                Freshness::Stale
            } else {
                Freshness::Fresh
            },
        },
    }
}

/// The view of an optional reference to a row.
pub open spec fn row_view(record: Option<&Currencie>) -> Option<CurrencieView> {
    match record {
        Some(row) => Some(row@),
        None => None,
    }
}

impl Freshness {
    /// A code has to be fetched unless it is fresh.
    pub open spec fn needs_refresh_spec(self) -> bool {
        self != Freshness::Fresh
    }

    #[verifier::when_used_as_spec(needs_refresh_spec)]
    pub fn needs_refresh(self) -> (needed: bool)
        ensures
            needed == self.needs_refresh_spec(),
    {
        match self {
            Freshness::Fresh => false,
            Freshness::Stale => true,
            Freshness::Missing => true,
        }
    }
}

/// Judges a row, or its absence, on `today`.
///
/// A row is judged by its day of last update alone; the comparison is strict
/// and by whole days.
pub fn evaluate(record: Option<&Currencie>, today: Day) -> (standing: Freshness)
    ensures
        standing == freshness(row_view(record), today),
{
    match record {
        None => Freshness::Missing,
        Some(row) => match row.last_update_day {
            None => Freshness::Stale,
            Some(confirmed) => if today.after(&confirmed) {
                Freshness::Stale
            } else {
                Freshness::Fresh
            },
        },
    }
}

/// How many of the standings call for a fetch. Only how often each standing
/// occurs counts, not where it stands.
pub open spec fn due_among(standings: Seq<Freshness>) -> nat {
    standings.to_multiset().count(Freshness::Stale) + standings.to_multiset().count(
        Freshness::Missing,
    )
}

/// Adds up, over the standings of all codes, how many have to be fetched.
///
/// The standings may have been found in any order, and by anyone: the sum is
/// taken when all of them are in.
pub fn count_due(standings: &Vec<Freshness>) -> (due: usize)
    ensures
        due == due_among(standings@),
        due <= standings.len(),
{
    let mut due: usize = 0;
    let mut i: usize = 0;
    proof {
        assert(standings@.take(0) =~= Seq::<Freshness>::empty());
        lemma_due_among_push(Seq::<Freshness>::empty(), Freshness::Fresh);
    }
    while i < standings.len()
        invariant
            i <= standings.len(),
            due <= i,
            due == due_among(standings@.take(i as int)),
        decreases standings.len() - i,
    {
        proof {
            let seen = standings@.take(i as int);
            assert(standings@.take(i + 1) =~= seen.push(standings@[i as int]));
            lemma_due_among_push(seen, standings@[i as int]);
        }
        if standings[i].needs_refresh() {
            due += 1;
        }
        i += 1;
    }
    assert(standings@.take(i as int) =~= standings@);
    due
}

/// The sum does not depend on the order of the standings.
pub proof fn lemma_due_among_ignores_order(one: Seq<Freshness>, other: Seq<Freshness>)
    requires
        one.to_multiset() == other.to_multiset(),
    ensures
        due_among(one) == due_among(other),
{
}

/// Adding a standing adds one to the sum if it calls for a fetch, and
/// nothing otherwise.
pub proof fn lemma_due_among_push(standings: Seq<Freshness>, next: Freshness)
    ensures
        due_among(standings.push(next)) == due_among(standings) + if next.needs_refresh_spec() {
            1nat
        } else {
            0nat
        },
        due_among(Seq::<Freshness>::empty()) == 0,
{
    broadcast use group_multiset_axioms;

    to_multiset_build(standings, next);
    Seq::<Freshness>::empty().to_multiset_ensures();
    assert(Seq::<Freshness>::empty().to_multiset() =~= vstd::multiset::Multiset::empty());
}

/// A row confirmed on `today` is fresh on `today`.
pub proof fn lemma_confirmed_today_is_fresh(row: CurrencieView, today: Day)
    requires
        row.last_update_day == Some(today),
    ensures
        freshness(Some(row), today) == Freshness::Fresh,
{
}

/// A refreshed row is fresh on the day of the refresh, whatever it held.
pub proof fn lemma_refreshed_is_fresh(row: CurrencieView, rate: crate::model::Rate, today: Day)
    ensures
        freshness(Some(row.refreshed(rate, today)), today) == Freshness::Fresh,
{
}

/// A placeholder row is stale on every day: creating it turns a missing code
/// into a stale one, and both have to be fetched.
pub proof fn lemma_placeholder_is_stale(code: Seq<char>, today: Day)
    ensures
        freshness(Some(CurrencieView::placeholder(code)), today) == Freshness::Stale,
        freshness(Some(CurrencieView::placeholder(code)), today).needs_refresh_spec(),
        freshness(None, today).needs_refresh_spec(),
{
}

/// Staleness only grows with time: what has to be fetched on one day has to
/// be fetched on every later day, as long as the row stays as it is.
pub proof fn lemma_stale_stays_stale(record: Option<CurrencieView>, today: Day, later: Day)
    requires
        later.is_after(today) || later == today,
        freshness(record, today).needs_refresh_spec(),
    ensures
        freshness(record, later).needs_refresh_spec(),
{
}

} // verus!
