//! What holds of every refresh cycle, whatever the table, the universe, the
//! day and the answer of the provider.

use vstd::prelude::*;
use crate::coordinator::{
    answer_applied,
    applied,
    created_rows,
    cycle,
    due,
    evaluated,
    fetch_needed,
    stale_count,
    stale_set,
    standings_of,
    upstream_calls,
};
use crate::day::Day;
use crate::model::CurrencieView;
use crate::staleness::{due_among, freshness, lemma_due_among_push, Freshness};
use crate::store::StoreView;
use crate::upstream::{rate_or_zero, FetchError, RateMap};

verus! {

/// Every code of the universe has a row that is fresh on `today`.
pub open spec fn all_fresh(table: StoreView, universe: Seq<Seq<char>>, today: Day) -> bool {
    forall|code: Seq<char>| #[trigger] universe.contains(code) ==> !due(table, code, today)
}

proof fn lemma_drop_last_contains<A>(s: Seq<A>, x: A)
    requires
        s.len() > 0,
    ensures
        s.contains(x) <==> (s.drop_last().contains(x) || x == s.last()),
{
    let shorter = s.drop_last();
    if s.contains(x) {
        let k = choose|k: int| 0 <= k < s.len() && s[k] == x;
        if k < s.len() - 1 {
            assert(shorter[k] == x);
        }
    }
    if shorter.contains(x) {
        let k = choose|k: int| 0 <= k < shorter.len() && shorter[k] == x;
        assert(s[k] == x);
    }
    if x == s.last() {
        assert(s[s.len() - 1] == x);
    }
}

/// The count never exceeds the size of the universe.
pub proof fn lemma_stale_count_bounded(table: StoreView, universe: Seq<Seq<char>>, today: Day)
    ensures
        stale_count(table, universe, today) <= universe.len(),
    decreases universe.len(),
{
    if universe.len() > 0 {
        lemma_stale_count_bounded(table, universe.drop_last(), today);
    }
}

/// The count is the sum over the standings of the codes, which does not
/// depend on the order in which the standings were found.
pub proof fn lemma_count_is_due_among(table: StoreView, universe: Seq<Seq<char>>, today: Day)
    ensures
        stale_count(table, universe, today) == due_among(standings_of(table, universe, today)),
    decreases universe.len(),
{
    let standings = standings_of(table, universe, today);
    if universe.len() == 0 {
        assert(standings =~= Seq::<Freshness>::empty());
        lemma_due_among_push(Seq::<Freshness>::empty(), Freshness::Fresh);
    } else {
        let earlier = standings_of(table, universe.drop_last(), today);
        lemma_count_is_due_among(table, universe.drop_last(), today);
        assert(standings =~= earlier.push(freshness(table.get(universe.last()), today)));
        lemma_due_among_push(earlier, freshness(table.get(universe.last()), today));
    }
}

/// The count is zero exactly when no code of the universe has to be
/// fetched.
pub proof fn lemma_count_zero_iff_all_fresh(
    table: StoreView,
    universe: Seq<Seq<char>>,
    today: Day,
)
    ensures
        stale_count(table, universe, today) == 0 <==> all_fresh(table, universe, today),
    decreases universe.len(),
{
    if universe.len() > 0 {
        let earlier = universe.drop_last();
        lemma_count_zero_iff_all_fresh(table, earlier, today);
        assert forall|code: Seq<char>|
            universe.contains(code) <==> (earlier.contains(code) || code == universe.last()) by {
            lemma_drop_last_contains(universe, code);
        }
        if stale_count(table, universe, today) == 0 {
            assert(all_fresh(table, earlier, today));
            assert forall|code: Seq<char>| #[trigger] universe.contains(code) implies !due(
                table,
                code,
                today,
            ) by {
                if code != universe.last() {
                    assert(earlier.contains(code));
                }
            }
        }
        if all_fresh(table, universe, today) {
            assert(universe.contains(universe.last()));
            assert forall|code: Seq<char>| #[trigger] earlier.contains(code) implies !due(
                table,
                code,
                today,
            ) by {
                assert(universe.contains(code));
            }
        }
    }
}

/// In a universe that lists no code twice, the count is the number of codes
/// that have to be fetched. It depends on which codes the universe lists,
/// not on the order in which they are looked at.
pub proof fn lemma_count_is_size_of_stale_set(
    table: StoreView,
    universe: Seq<Seq<char>>,
    today: Day,
)
    requires
        universe.no_duplicates(),
    ensures
        stale_set(table, universe, today).finite(),
        stale_count(table, universe, today) == stale_set(table, universe, today).len(),
    decreases universe.len(),
{
    let all = stale_set(table, universe, today);
    if universe.len() == 0 {
        assert(all =~= Set::<Seq<char>>::empty());
    } else {
        let earlier = universe.drop_last();
        let code = universe.last();
        let fewer = stale_set(table, earlier, today);
        assert(earlier.no_duplicates());
        lemma_count_is_size_of_stale_set(table, earlier, today);
        assert forall|c: Seq<char>| universe.contains(c) <==> (earlier.contains(c) || c == code) by {
            lemma_drop_last_contains(universe, c);
        }
        if earlier.contains(code) {
            let k = choose|k: int| 0 <= k < earlier.len() && earlier[k] == code;
            assert(universe[k] == universe[universe.len() - 1]);
        }
        if due(table, code, today) {
            assert(all =~= fewer.insert(code));
        } else {
            assert(all =~= fewer);
        }
    }
}

/// Two universes that list the same codes, each code once, give the same
/// count, in whatever order they list them.
pub proof fn lemma_count_ignores_order(
    table: StoreView,
    one: Seq<Seq<char>>,
    other: Seq<Seq<char>>,
    today: Day,
)
    requires
        one.no_duplicates(),
        other.no_duplicates(),
        forall|code: Seq<char>| one.contains(code) <==> other.contains(code),
    ensures
        stale_count(table, one, today) == stale_count(table, other, today),
{
    lemma_count_is_size_of_stale_set(table, one, today);
    lemma_count_is_size_of_stale_set(table, other, today);
    assert(stale_set(table, one, today) =~= stale_set(table, other, today));
}

/// A cycle asks the provider at most once, however many codes are stale.
pub proof fn lemma_at_most_one_call(table: StoreView, universe: Seq<Seq<char>>, today: Day)
    ensures
        upstream_calls(table, universe, today) <= 1,
        upstream_calls(table, universe, today) == 0 <==> all_fresh(table, universe, today),
{
    lemma_count_zero_iff_all_fresh(table, universe, today);
}

/// Only codes that had no row get a placeholder, and a placeholder is all
/// that the first step ever writes.
pub proof fn lemma_created_rows_are_new(table: StoreView, universe: Seq<Seq<char>>, i: int)
    requires
        0 <= i < created_rows(table, universe).len(),
    ensures
        created_rows(table, universe)[i].name is Some,
        universe.contains(created_rows(table, universe)[i].name->0),
        !table.contains_key(created_rows(table, universe)[i].name->0),
        created_rows(table, universe)[i] == CurrencieView::placeholder(
            created_rows(table, universe)[i].name->0,
        ),
    decreases universe.len(),
{
    if universe.len() > 0 {
        let earlier = universe.drop_last();
        let code = universe.last();
        let fewer = created_rows(table, earlier);
        if i < fewer.len() {
            lemma_created_rows_are_new(table, earlier, i);
            lemma_drop_last_contains(universe, fewer[i].name->0);
        } else {
            lemma_drop_last_contains(universe, code);
        }
    }
}

/// Where every code of the universe is fresh, a cycle does nothing: the
/// provider is not asked, no placeholder is created, and the table is the
/// one it was. Running the cycle again changes nothing either.
pub proof fn lemma_all_fresh_cycle_is_idle(
    table: StoreView,
    universe: Seq<Seq<char>>,
    today: Day,
    answer: Result<RateMap, FetchError>,
)
    requires
        all_fresh(table, universe, today),
    ensures
        upstream_calls(table, universe, today) == 0,
        created_rows(table, universe) == Seq::<CurrencieView>::empty(),
        !answer_applied(table, universe, today, answer),
        cycle(table, universe, today, answer) == table,
{
    lemma_count_zero_iff_all_fresh(table, universe, today);
    assert(cycle(table, universe, today, answer) =~= table) by {
        assert forall|code: Seq<char>| #[trigger] universe.contains(code) implies table.contains_key(
            code,
        ) by {
            assert(!due(table, code, today));
        }
    }
    if created_rows(table, universe).len() > 0 {
        lemma_created_rows_are_new(table, universe, 0);
        let code = created_rows(table, universe)[0].name->0;
        assert(!due(table, code, today));
    }
    assert(created_rows(table, universe) =~= Seq::<CurrencieView>::empty());
}

/// After a cycle that wrote an answer back, every code of the universe is
/// fresh on that day: a second cycle on the same day asks nobody and writes
/// nothing, whatever the provider would say.
pub proof fn lemma_cycle_settles(
    table: StoreView,
    universe: Seq<Seq<char>>,
    today: Day,
    answer: Result<RateMap, FetchError>,
    second_answer: Result<RateMap, FetchError>,
)
    requires
        answer is Ok || !fetch_needed(table, universe, today),
    ensures
        all_fresh(cycle(table, universe, today, answer), universe, today),
        upstream_calls(cycle(table, universe, today, answer), universe, today) == 0,
        created_rows(cycle(table, universe, today, answer), universe) == Seq::<
            CurrencieView,
        >::empty(),
        cycle(cycle(table, universe, today, answer), universe, today, second_answer) == cycle(
            table,
            universe,
            today,
            answer,
        ),
{
    let after = cycle(table, universe, today, answer);
    lemma_count_zero_iff_all_fresh(table, universe, today);
    assert forall|code: Seq<char>| #[trigger] universe.contains(code) implies !due(
        after,
        code,
        today,
    ) by {
        if fetch_needed(table, universe, today) {
            assert(evaluated(table, universe).contains_key(code));
            assert(after.contains_key(code));
        } else {
            assert(!due(table, code, today));
            assert(table.contains_key(code));
        }
    }
    lemma_all_fresh_cycle_is_idle(after, universe, today, second_answer);
}

/// A row that was confirmed today is left exactly as it is by a cycle that
/// writes no answer back: one in which nothing is stale, or in which the
/// provider gives no rates. The same holds of every row whose code is not
/// in the universe.
pub proof fn lemma_fresh_row_untouched(
    table: StoreView,
    universe: Seq<Seq<char>>,
    today: Day,
    answer: Result<RateMap, FetchError>,
    code: Seq<char>,
)
    requires
        table.contains_key(code),
        table[code].last_update_day == Some(today),
        !answer_applied(table, universe, today, answer) || !universe.contains(code),
    ensures
        !due(table, code, today),
        cycle(table, universe, today, answer).contains_key(code),
        cycle(table, universe, today, answer)[code] == table[code],
        forall|i: int|
            0 <= i < created_rows(table, universe).len() ==> (#[trigger] created_rows(
                table,
                universe,
            )[i]).name != Some(code),
{
    assert forall|i: int| 0 <= i < created_rows(table, universe).len() implies (
    #[trigger] created_rows(table, universe)[i]).name != Some(code) by {
        lemma_created_rows_are_new(table, universe, i);
    }
}

/// A row that was confirmed today stays confirmed today through every
/// cycle, and keeps its key, its timestamps and its name. Only its rate can
/// change, and only to what the provider answered.
pub proof fn lemma_fresh_row_stays_fresh(
    table: StoreView,
    universe: Seq<Seq<char>>,
    today: Day,
    answer: Result<RateMap, FetchError>,
    code: Seq<char>,
)
    requires
        table.contains_key(code),
        table[code].last_update_day == Some(today),
    ensures
        cycle(table, universe, today, answer).contains_key(code),
        cycle(table, universe, today, answer)[code] == (CurrencieView {
            rate: cycle(table, universe, today, answer)[code].rate,
            ..table[code]
        }),
        freshness(Some(cycle(table, universe, today, answer)[code]), today) == Freshness::Fresh,
        (answer_applied(table, universe, today, answer) && universe.contains(code)) ==> cycle(
            table,
            universe,
            today,
            answer,
        )[code].rate == Some(rate_or_zero(answer->Ok_0, code)),
{
}

/// A code of the universe that had no row has one after the cycle. The
/// provider is asked on its account. Where the provider gives no rates the
/// row is the placeholder: rate `0.0`, never updated. Where it gives rates
/// the row has the rate for the code, `0.0` if there is none, and today as
/// its day of last update.
pub proof fn lemma_absent_code_gets_row(
    table: StoreView,
    universe: Seq<Seq<char>>,
    today: Day,
    answer: Result<RateMap, FetchError>,
    code: Seq<char>,
)
    requires
        universe.contains(code),
        !table.contains_key(code),
    ensures
        upstream_calls(table, universe, today) == 1,
        cycle(table, universe, today, answer).contains_key(code),
        cycle(table, universe, today, answer)[code] == match answer {
            Ok(rates) => CurrencieView::placeholder(code).refreshed(
                rate_or_zero(rates, code),
                today,
            ),
            Err(_) => CurrencieView::placeholder(code),
        },
        answer is Err ==> cycle(table, universe, today, answer)[code].never_fetched(),
{
    lemma_count_zero_iff_all_fresh(table, universe, today);
    assert(due(table, code, today));
    assert(evaluated(table, universe).contains_key(code));
}

/// Where the provider gives no rates, no row that existed is changed, and
/// what has to be fetched stays the same on every day: the codes that got a
/// placeholder were due before and are due after. The next cycle therefore
/// finds the same codes stale and asks again.
pub proof fn lemma_failed_fetch_changes_nothing(
    table: StoreView,
    universe: Seq<Seq<char>>,
    today: Day,
    reason: FetchError,
    later: Day,
)
    ensures
        cycle(table, universe, today, Err(reason)) == evaluated(table, universe),
        forall|code: Seq<char>| #[trigger]
            table.contains_key(code) ==> cycle(table, universe, today, Err(reason))[code]
                == table[code],
        stale_set(cycle(table, universe, today, Err(reason)), universe, later) == stale_set(
            table,
            universe,
            later,
        ),
        stale_count(cycle(table, universe, today, Err(reason)), universe, later) == stale_count(
            table,
            universe,
            later,
        ),
{
    let after = cycle(table, universe, today, Err(reason));
    assert(stale_set(after, universe, later) =~= stale_set(table, universe, later));
    lemma_count_after_evaluation(table, universe, universe, later);
}

/// Placeholders do not change the count.
pub proof fn lemma_count_after_evaluation(
    table: StoreView,
    seen: Seq<Seq<char>>,
    universe: Seq<Seq<char>>,
    today: Day,
)
    ensures
        stale_count(evaluated(table, seen), universe, today) == stale_count(
            table,
            universe,
            today,
        ),
    decreases universe.len(),
{
    if universe.len() > 0 {
        lemma_count_after_evaluation(table, seen, universe.drop_last(), today);
    }
}

/// Codes the answer has no number for get the rate `0.0` and are still
/// marked as confirmed today.
pub proof fn lemma_missing_entry_falls_back(
    table: StoreView,
    universe: Seq<Seq<char>>,
    today: Day,
    rates: RateMap,
    code: Seq<char>,
)
    requires
        table.contains_key(code),
        universe.contains(code),
        !rates.contains_key(code),
    ensures
        applied(table, universe, today, rates)[code].rate == Some(crate::model::Rate::zero_spec()),
        applied(table, universe, today, rates)[code].last_update_day == Some(today),
{
}

} // verus!
