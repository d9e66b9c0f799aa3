//! One refresh cycle: judge every code, ask the provider at most once,
//! write the answer back.

use vstd::prelude::*;
use crate::day::{today, Day};
use crate::model::{Currencie, CurrencieView};
use crate::staleness::{count_due, due_among, evaluate, freshness, Freshness};
use crate::guarantees::{lemma_count_is_due_among, lemma_count_is_size_of_stale_set};
use crate::store::{RateStore, StoreView};
use crate::universe::Universe;
use crate::upstream::{
    interpret,
    interpretation,
    rate_or_zero,
    FetchError,
    RateMap,
    RateTable,
    UpstreamReply,
};

verus! {

/// The views of a list of rows.
pub open spec fn rows_view(rows: Seq<Currencie>) -> Seq<CurrencieView> {
    rows.map_values(|row: Currencie| row@)
}

/// Whether `code` has to be fetched on `today`, going by `table`.
pub open spec fn due(table: StoreView, code: Seq<char>, today: Day) -> bool {
    freshness(table.get(code), today).needs_refresh_spec()
}

/// The standing of each code of the universe on `today`, in the order of
/// the universe.
pub open spec fn standings_of(table: StoreView, universe: Seq<Seq<char>>, today: Day) -> Seq<
    Freshness,
> {
    universe.map_values(|code: Seq<char>| freshness(table.get(code), today))
}

/// How many entries of the universe have to be fetched on `today`.
pub open spec fn stale_count(table: StoreView, universe: Seq<Seq<char>>, today: Day) -> nat
    decreases universe.len(),
{
    if universe.len() == 0 {
        0
    } else {
        stale_count(table, universe.drop_last(), today) + if due(table, universe.last(), today) {
            1nat
        } else {
            0nat
        }
    }
}

/// The codes of the universe that have to be fetched on `today`.
pub open spec fn stale_set(table: StoreView, universe: Seq<Seq<char>>, today: Day) -> Set<
    Seq<char>,
> {
    Set::new(|code: Seq<char>| universe.contains(code) && due(table, code, today))
}

/// The table after every code of the universe was looked at: each code
/// without a row has got a placeholder, nothing else has changed.
pub open spec fn evaluated(table: StoreView, universe: Seq<Seq<char>>) -> StoreView {
    Map::new(
        |code: Seq<char>| table.contains_key(code) || universe.contains(code),
        |code: Seq<char>|
            if table.contains_key(code) {
                table[code]
            } else {
                CurrencieView::placeholder(code)
            },
    )
}

/// The placeholders that looking at the universe creates, in the order of
/// the universe, one for each code without a row.
pub open spec fn created_rows(table: StoreView, universe: Seq<Seq<char>>) -> Seq<CurrencieView>
    decreases universe.len(),
{
    if universe.len() == 0 {
        Seq::empty()
    } else {
        let earlier = universe.drop_last();
        let code = universe.last();
        if table.contains_key(code) || earlier.contains(code) {
            created_rows(table, earlier)
        } else {
            created_rows(table, earlier).push(CurrencieView::placeholder(code))
        }
    }
}

/// The table after an answer was written back: every row of a code of the
/// universe has the rate the answer gives for it, `0.0` where it gives none,
/// and is confirmed on `today`. Codes without a row stay without.
pub open spec fn applied(
    table: StoreView,
    universe: Seq<Seq<char>>,
    today: Day,
    rates: RateMap,
) -> StoreView {
    Map::new(
        |code: Seq<char>| table.contains_key(code),
        |code: Seq<char>|
            if universe.contains(code) {
                table[code].refreshed(rate_or_zero(rates, code), today)
            } else {
                table[code]
            },
    )
}

/// The rows that writing an answer back writes, in the order of the
/// universe.
pub open spec fn written_rows(
    table: StoreView,
    universe: Seq<Seq<char>>,
    today: Day,
    rates: RateMap,
) -> Seq<CurrencieView>
    decreases universe.len(),
{
    if universe.len() == 0 {
        Seq::empty()
    } else {
        let earlier = written_rows(table, universe.drop_last(), today, rates);
        let code = universe.last();
        if table.contains_key(code) {
            earlier.push(table[code].refreshed(rate_or_zero(rates, code), today))
        } else {
            earlier
        }
    }
}

/// The provider is asked when at least one code has to be fetched.
pub open spec fn fetch_needed(table: StoreView, universe: Seq<Seq<char>>, today: Day) -> bool {
    stale_count(table, universe, today) > 0
}

/// How often one cycle asks the provider.
pub open spec fn upstream_calls(table: StoreView, universe: Seq<Seq<char>>, today: Day) -> nat {
    if fetch_needed(table, universe, today) {
        1
    } else {
        0
    }
}

/// Whether a cycle writes an answer back: the provider was asked and its
/// answer carries rates.
pub open spec fn answer_applied(
    table: StoreView,
    universe: Seq<Seq<char>>,
    today: Day,
    answer: Result<RateMap, FetchError>,
) -> bool {
    fetch_needed(table, universe, today) && answer is Ok
}

/// The table after one cycle. `answer` is what the provider says if it is
/// asked.
pub open spec fn cycle(
    table: StoreView,
    universe: Seq<Seq<char>>,
    today: Day,
    answer: Result<RateMap, FetchError>,
) -> StoreView {
    if answer_applied(table, universe, today, answer) {
        applied(evaluated(table, universe), universe, today, answer->Ok_0)
    } else {
        evaluated(table, universe)
    }
}

/// What looking at every code of the universe found and did.
#[derive(Debug)]
pub struct Evaluation {
    /// How each code of the universe stood before it was looked at, in the
    /// order of the universe.
    pub standings: Vec<Freshness>,
    /// How many entries of the universe have to be fetched.
    pub stale: usize,
    /// The placeholder rows that were created, ready to be persisted.
    pub created: Vec<Currencie>,
}

impl Evaluation {
    /// Whether the provider has to be asked.
    pub fn needs_fetch(&self) -> (needed: bool)
        ensures
            needed == (self.stale > 0),
    {
        self.stale > 0
    }
}

/// What one cycle found and did.
#[derive(Debug)]
pub struct CycleReport {
    /// How each code of the universe stood when the cycle began, in the
    /// order of the universe.
    pub standings: Vec<Freshness>,
    /// How many entries of the universe had to be fetched.
    pub stale: usize,
    /// How often the provider was asked: once or not at all.
    pub upstream_calls: usize,
    /// The placeholder rows that were created.
    pub created: Vec<Currencie>,
    /// The rows that were written with the answer of the provider.
    pub written: Vec<Currencie>,
    /// Why the provider gave no rates, where it was asked and gave none.
    pub failure: Option<FetchError>,
}

proof fn lemma_take_next<A>(s: Seq<A>, i: int)
    requires
        0 <= i < s.len(),
    ensures
        s.take(i + 1) == s.take(i).push(s[i]),
        s.take(i + 1).drop_last() == s.take(i),
        s.take(i + 1).last() == s[i],
        forall|x: A| s.take(i + 1).contains(x) <==> (s.take(i).contains(x) || x == s[i]),
{
    let longer = s.take(i + 1);
    let shorter = s.take(i);
    assert(longer =~= shorter.push(s[i]));
    assert(longer.drop_last() =~= shorter);
    assert forall|x: A| longer.contains(x) <==> (shorter.contains(x) || x == s[i]) by {
        if longer.contains(x) {
            let k = choose|k: int| 0 <= k < longer.len() && longer[k] == x;
            if k < i {
                assert(shorter[k] == x);
            }
        }
        if shorter.contains(x) {
            let k = choose|k: int| 0 <= k < shorter.len() && shorter[k] == x;
            assert(longer[k] == x);
        }
        if x == s[i] {
            assert(longer[i] == x);
        }
    }
}

/// A placeholder does not change whether a code has to be fetched: a code
/// without a row and a code with a placeholder both have to.
pub proof fn lemma_due_after_evaluation(
    table: StoreView,
    universe: Seq<Seq<char>>,
    code: Seq<char>,
    today: Day,
)
    ensures
        due(evaluated(table, universe), code, today) == due(table, code, today),
{
}

/// Looks at every code of the universe: counts those that have to be
/// fetched on `today`, and gives each code without a row a placeholder, so
/// that it is found, and found stale, from then on.
///
/// Rows that exist are left as they are.
pub fn evaluate_universe(store: &mut RateStore, universe: &Universe, today: Day) -> (outcome:
    Evaluation)
    ensures
        final(store)@ == evaluated(old(store)@, universe@),
        outcome.standings@ == standings_of(old(store)@, universe@, today),
        outcome.stale == due_among(outcome.standings@),
        outcome.stale == stale_count(old(store)@, universe@, today),
        outcome.stale == stale_set(old(store)@, universe@, today).len(),
        rows_view(outcome.created@) == created_rows(old(store)@, universe@),
{
    let ghost before = store@;
    let ghost all = universe@;
    let mut standings: Vec<Freshness> = Vec::new();
    let mut created: Vec<Currencie> = Vec::new();
    let mut i: usize = 0;
    proof {
        assert(all.take(0) =~= Seq::<Seq<char>>::empty());
        assert(store@ =~= evaluated(before, all.take(0)));
        assert(rows_view(created@) =~= created_rows(before, all.take(0)));
        assert(standings@ =~= standings_of(before, all.take(0), today));
    }
    let n = universe.len();
    while i < n
        invariant
            i <= n,
            all == universe@,
            all.len() == n,
            all.no_duplicates(),
            store@ == evaluated(before, all.take(i as int)),
            standings@ == standings_of(before, all.take(i as int), today),
            rows_view(created@) == created_rows(before, all.take(i as int)),
        decreases n - i,
    {
        let code = universe.code(i);
        let ghost seen = all.take(i as int);
        proof {
            lemma_take_next(all, i as int);
            assert(all[i as int] == code@);
            assert(!seen.contains(code@)) by {
                if seen.contains(code@) {
                    let k = choose|k: int| 0 <= k < seen.len() && seen[k] == code@;
                    assert(all[k] == all[i as int]);
                }
            }
            assert(store@.get(code@) == before.get(code@));
        }
        let standing = evaluate(store.find_by_code(code), today);
        standings.push(standing);
        proof {
            assert(standings@ =~= standings_of(before, all.take(i + 1), today));
        }
        if standing == Freshness::Missing {
            let row = Currencie::placeholder(code);
            let ghost shown = rows_view(created@);
            let _filed = store.upsert(row.duplicate());
            created.push(row);
            proof {
                assert(rows_view(created@) =~= shown.push(CurrencieView::placeholder(code@)));
                assert(store@ =~= evaluated(before, all.take(i + 1)));
            }
        } else {
            proof {
                assert(store@ =~= evaluated(before, all.take(i + 1)));
            }
        }
        i += 1;
    }
    proof {
        assert(all.take(i as int) =~= all);
        lemma_count_is_due_among(before, all, today);
        lemma_count_is_size_of_stale_set(before, all, today);
    }
    let stale = count_due(&standings);
    Evaluation { standings, stale, created }
}

/// Looks at every code of the universe on `day`, where there is a day, and
/// hands the day back with what was found. Where there is none, nothing is
/// looked at and the table stays as it is.
pub fn evaluate_on(store: &mut RateStore, universe: &Universe, day: Option<Day>) -> (started:
    Option<(Day, Evaluation)>)
    ensures
        match day {
            Some(today) => {
                &&& started matches Some((fixed, outcome))
                &&& fixed == today
                &&& final(store)@ == evaluated(old(store)@, universe@)
                &&& outcome.standings@ == standings_of(old(store)@, universe@, today)
                &&& outcome.stale == due_among(outcome.standings@)
                &&& outcome.stale == stale_count(old(store)@, universe@, today)
                &&& outcome.stale == stale_set(old(store)@, universe@, today).len()
                &&& rows_view(outcome.created@) == created_rows(old(store)@, universe@)
            },
            None => started is None && final(store)@ == old(store)@,
        },
{
    match day {
        Some(today) => {
            let outcome = evaluate_universe(store, universe, today);
            Some((today, outcome))
        },
        None => None,
    }
}

/// Fixes the day of a cycle by the clock, once, and looks at every code of
/// the universe on that day, as [`evaluate_on`] does.
///
/// Which day comes back is up to the clock; whatever it is, the codes are
/// all judged on it. Where the clock gives no day, nothing is looked at and
/// the table stays as it is.
pub fn evaluate_now(store: &mut RateStore, universe: &Universe) -> (started: Option<
    (Day, Evaluation),
>)
    ensures
        match started {
            Some((day, outcome)) => {
                &&& day.in_calendar_range()
                &&& final(store)@ == evaluated(old(store)@, universe@)
                &&& outcome.standings@ == standings_of(old(store)@, universe@, day)
                &&& outcome.stale == due_among(outcome.standings@)
                &&& outcome.stale == stale_count(old(store)@, universe@, day)
                &&& outcome.stale == stale_set(old(store)@, universe@, day).len()
                &&& rows_view(outcome.created@) == created_rows(old(store)@, universe@)
            },
            None => final(store)@ == old(store)@,
        },
{
    evaluate_on(store, universe, today())
}

/// Writes an answer of the provider back: every row of a code of the
/// universe gets the fetched rate, or `0.0` where the answer has no number
/// for the code, and `today` as its day of last update.
///
/// A code without a row gets none here.
pub fn apply_rates(
    store: &mut RateStore,
    universe: &Universe,
    today: Day,
    table: &RateTable,
) -> (written: Vec<Currencie>)
    ensures
        final(store)@ == applied(old(store)@, universe@, today, table@),
        rows_view(written@) == written_rows(old(store)@, universe@, today, table@),
{
    let ghost before = store@;
    let ghost all = universe@;
    let mut written: Vec<Currencie> = Vec::new();
    let mut i: usize = 0;
    proof {
        assert(all.take(0) =~= Seq::<Seq<char>>::empty());
        assert(store@ =~= applied(before, all.take(0), today, table@));
        assert(rows_view(written@) =~= written_rows(before, all.take(0), today, table@));
    }
    let n = universe.len();
    while i < n
        invariant
            i <= n,
            all == universe@,
            all.len() == n,
            store@ == applied(before, all.take(i as int), today, table@),
            rows_view(written@) == written_rows(before, all.take(i as int), today, table@),
        decreases n - i,
    {
        let code = universe.code(i);
        proof {
            lemma_take_next(all, i as int);
            assert(all[i as int] == code@);
        }
        let rate = table.rate_of(code);
        let next = match store.find_by_code(code) {
            Some(row) => {
                let mut next = row.duplicate();
                next.refresh(rate, today);
                Some(next)
            },
            None => None,
        };
        match next {
            Some(row) => {
                let ghost shown = rows_view(written@);
                let _filed = store.upsert(row.duplicate());
                written.push(row);
                proof {
                    assert(rows_view(written@) =~= shown.push(
                        before[code@].refreshed(rate, today),
                    ));
                    assert(store@ =~= applied(before, all.take(i + 1), today, table@));
                }
            },
            None => {
                proof {
                    assert(store@ =~= applied(before, all.take(i + 1), today, table@));
                }
            },
        }
        i += 1;
    }
    proof {
        assert(all.take(i as int) =~= all);
    }
    written
}

/// Runs one cycle on `store`: looks at every code, asks the provider if and
/// only if something has to be fetched, and writes its answer back.
///
/// `answer` stands for the provider: it is what the provider says if it is
/// asked, and it is not looked at unless it is asked. An answer without
/// rates leaves the table as the first step left it.
pub fn run_cycle(
    store: &mut RateStore,
    universe: &Universe,
    today: Day,
    answer: &UpstreamReply,
) -> (report: CycleReport)
    ensures
        final(store)@ == cycle(old(store)@, universe@, today, interpretation(*answer)),
        report.standings@ == standings_of(old(store)@, universe@, today),
        report.stale == stale_count(old(store)@, universe@, today),
        report.stale == stale_set(old(store)@, universe@, today).len(),
        report.upstream_calls == upstream_calls(old(store)@, universe@, today),
        report.upstream_calls <= 1,
        rows_view(report.created@) == created_rows(old(store)@, universe@),
        rows_view(report.written@) == if answer_applied(
            old(store)@,
            universe@,
            today,
            interpretation(*answer),
        ) {
            written_rows(
                evaluated(old(store)@, universe@),
                universe@,
                today,
                interpretation(*answer)->Ok_0,
            )
        } else {
            Seq::empty()
        },
        report.failure == if fetch_needed(old(store)@, universe@, today) {
            match interpretation(*answer) {
                Ok(_) => None,
                Err(reason) => Some(reason),
            }
        } else {
            None
        },
{
    let Evaluation { standings, stale, created } = evaluate_universe(store, universe, today);
    if stale == 0 {
        let written: Vec<Currencie> = Vec::new();
        assert(rows_view(written@) =~= Seq::<CurrencieView>::empty());
        return CycleReport { standings, stale, upstream_calls: 0, created, written, failure: None };
    }
    match interpret(answer) {
        Ok(table) => {
            let written = apply_rates(store, universe, today, &table);
            CycleReport { standings, stale, upstream_calls: 1, created, written, failure: None }
        },
        Err(reason) => {
            let written: Vec<Currencie> = Vec::new();
            assert(rows_view(written@) =~= Seq::<CurrencieView>::empty());
            CycleReport { standings, stale, upstream_calls: 1, created, written, failure: Some(reason) }
        },
    }
}

} // verus!
