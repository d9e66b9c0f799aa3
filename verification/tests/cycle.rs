use rate_sync::coordinator::{
    apply_rates, evaluate_now, evaluate_on, evaluate_universe, run_cycle,
};
use rate_sync::day::Day;
use rate_sync::model::{Currencie, Rate};
use rate_sync::staleness::Freshness;
use rate_sync::store::RateStore;
use rate_sync::universe::Universe;
use rate_sync::upstream::{interpret, FetchError, UpstreamReply};

fn universe(codes: &[&str]) -> Universe {
    Universe::new(codes.iter().map(|code| code.to_string()).collect()).expect("distinct codes")
}

fn answered(body: &str) -> UpstreamReply {
    UpstreamReply::Answered { status: 200, body: Some(body.to_string()) }
}

fn rate(value: f64) -> Rate {
    Rate::from_bits(value.to_bits())
}

fn row(code: &str, value: f64, confirmed: Option<Day>, id: i32) -> Currencie {
    let mut row = Currencie::placeholder(code);
    row.id = Some(id);
    row.rate = Some(rate(value));
    row.last_update_day = confirmed;
    row
}

fn today() -> Day {
    Day::new(2024, 5, 17)
}

fn yesterday() -> Day {
    Day::new(2024, 5, 16)
}

#[test]
fn fresh_and_missing_code_one_call_and_missing_code_filled() {
    let mut store = RateStore::new();
    store.upsert(row("USD", 1.08, Some(today()), 1)).unwrap();
    let report = run_cycle(
        &mut store,
        &universe(&["USD", "EUR"]),
        today(),
        &answered("{\"rates\":{\"USD\":1.08,\"EUR\":1.0}}"),
    );
    assert_eq!(report.stale, 1);
    assert_eq!(report.upstream_calls, 1);
    assert_eq!(report.failure, None);
    assert_eq!(report.created.len(), 1);
    assert_eq!(report.created[0].name.as_deref(), Some("EUR"));
    let eur = store.find_by_code("EUR").unwrap();
    assert_eq!(eur.rate, Some(rate(1.0)));
    assert_eq!(eur.last_update_day, Some(today()));
    let usd = store.find_by_code("USD").unwrap();
    assert_eq!(usd.id, Some(1));
    assert_eq!(usd.rate, Some(rate(1.08)));
    assert_eq!(usd.last_update_day, Some(today()));
}

#[test]
fn unusable_entry_falls_back_to_zero_and_is_still_stamped() {
    let mut store = RateStore::new();
    store.upsert(row("USD", 1.0, Some(yesterday()), 1)).unwrap();
    store.upsert(row("EUR", 0.9, Some(yesterday()), 2)).unwrap();
    let report = run_cycle(
        &mut store,
        &universe(&["USD", "EUR"]),
        today(),
        &answered("{\"rates\":{\"USD\":1.1,\"EUR\":\"n/a\"}}"),
    );
    assert_eq!(report.stale, 2);
    assert_eq!(report.upstream_calls, 1);
    assert_eq!(report.written.len(), 2);
    let eur = store.find_by_code("EUR").unwrap();
    assert_eq!(eur.rate, Some(Rate::zero()));
    assert_eq!(eur.last_update_day, Some(today()));
    assert_eq!(eur.id, Some(2));
    let usd = store.find_by_code("USD").unwrap();
    assert_eq!(usd.rate, Some(rate(1.1)));
    assert_eq!(usd.last_update_day, Some(today()));
    assert_eq!(usd.id, Some(1));
}

#[test]
fn failed_call_changes_no_row_and_next_cycle_finds_the_same_stale() {
    let mut store = RateStore::new();
    store.upsert(row("USD", 1.0, Some(yesterday()), 1)).unwrap();
    store.upsert(row("GBP", 0.8, Some(today()), 2)).unwrap();
    let codes = universe(&["USD", "GBP", "EUR"]);
    let first = run_cycle(&mut store, &codes, today(), &UpstreamReply::Unreachable);
    assert_eq!(first.stale, 2);
    assert_eq!(first.upstream_calls, 1);
    assert_eq!(first.failure, Some(FetchError::Transport));
    assert!(first.written.is_empty());
    let usd = store.find_by_code("USD").unwrap();
    assert_eq!(usd.rate, Some(rate(1.0)));
    assert_eq!(usd.last_update_day, Some(yesterday()));
    let gbp = store.find_by_code("GBP").unwrap();
    assert_eq!(gbp.rate, Some(rate(0.8)));
    assert_eq!(gbp.last_update_day, Some(today()));
    let eur = store.find_by_code("EUR").unwrap();
    assert_eq!(eur.rate, Some(Rate::zero()));
    assert_eq!(eur.last_update_day, None);
    let second = run_cycle(&mut store, &codes, today(), &UpstreamReply::Unreachable);
    assert_eq!(second.stale, 2);
    assert_eq!(second.upstream_calls, 1);
    assert!(second.created.is_empty());
}

#[test]
fn every_kind_of_failure_leaves_rows_alone() {
    let replies = [
        (UpstreamReply::Unreachable, FetchError::Transport),
        (
            UpstreamReply::Answered { status: 503, body: Some("{\"rates\":{\"USD\":9.0}}".into()) },
            FetchError::Rejected { status: 503 },
        ),
        (UpstreamReply::Answered { status: 200, body: None }, FetchError::Unreadable),
        (UpstreamReply::Answered { status: 200, body: Some("oops".into()) }, FetchError::Malformed),
    ];
    for (reply, reason) in replies {
        let mut store = RateStore::new();
        store.upsert(row("USD", 1.0, Some(yesterday()), 1)).unwrap();
        let report = run_cycle(&mut store, &universe(&["USD"]), today(), &reply);
        assert_eq!(report.failure, Some(reason));
        assert_eq!(report.upstream_calls, 1);
        let usd = store.find_by_code("USD").unwrap();
        assert_eq!(usd.rate, Some(rate(1.0)));
        assert_eq!(usd.last_update_day, Some(yesterday()));
    }
}

#[test]
fn all_fresh_universe_asks_nobody_and_writes_nothing() {
    let mut store = RateStore::new();
    store.upsert(row("USD", 1.0, Some(today()), 1)).unwrap();
    store.upsert(row("EUR", 0.9, Some(today()), 2)).unwrap();
    let codes = universe(&["USD", "EUR"]);
    for _ in 0..2 {
        let report =
            run_cycle(&mut store, &codes, today(), &answered("{\"rates\":{\"USD\":5,\"EUR\":6}}"));
        assert_eq!(report.stale, 0);
        assert_eq!(report.upstream_calls, 0);
        assert!(report.created.is_empty());
        assert!(report.written.is_empty());
        assert_eq!(report.failure, None);
        assert_eq!(store.find_by_code("USD").unwrap().rate, Some(rate(1.0)));
        assert_eq!(store.find_by_code("EUR").unwrap().rate, Some(rate(0.9)));
        assert_eq!(store.len(), 2);
    }
}

#[test]
fn second_cycle_after_a_good_one_is_idle() {
    let mut store = RateStore::new();
    let codes = universe(&["USD", "EUR", "GBP"]);
    let body = answered("{\"rates\":{\"USD\":1.1,\"EUR\":1.0}}");
    let first = run_cycle(&mut store, &codes, today(), &body);
    assert_eq!(first.stale, 3);
    assert_eq!(first.upstream_calls, 1);
    assert_eq!(first.created.len(), 3);
    assert_eq!(first.written.len(), 3);
    let second = run_cycle(&mut store, &codes, today(), &body);
    assert_eq!(second.stale, 0);
    assert_eq!(second.upstream_calls, 0);
    assert!(second.created.is_empty());
    assert!(second.written.is_empty());
    assert_eq!(store.find_by_code("GBP").unwrap().rate, Some(Rate::zero()));
    assert_eq!(store.find_by_code("GBP").unwrap().last_update_day, Some(today()));
}

#[test]
fn next_day_everything_is_stale_again() {
    let mut store = RateStore::new();
    let codes = universe(&["USD", "EUR"]);
    run_cycle(&mut store, &codes, today(), &answered("{\"rates\":{\"USD\":1.1,\"EUR\":1.0}}"));
    let report = run_cycle(
        &mut store,
        &codes,
        Day::new(2024, 5, 18),
        &answered("{\"rates\":{\"USD\":1.2,\"EUR\":1.0}}"),
    );
    assert_eq!(report.stale, 2);
    assert_eq!(report.upstream_calls, 1);
    assert!(report.created.is_empty());
    assert_eq!(store.find_by_code("USD").unwrap().rate, Some(rate(1.2)));
    assert_eq!(store.find_by_code("USD").unwrap().last_update_day, Some(Day::new(2024, 5, 18)));
}

#[test]
fn absent_code_gets_placeholder_when_the_call_fails() {
    let mut store = RateStore::new();
    let report = run_cycle(&mut store, &universe(&["EUR"]), today(), &UpstreamReply::Unreachable);
    assert_eq!(report.stale, 1);
    assert_eq!(report.created.len(), 1);
    let eur = store.find_by_code("EUR").unwrap();
    assert_eq!(eur.rate, Some(rate(0.0)));
    assert_eq!(eur.last_update_day, None);
    assert_eq!(eur.id, None);
}

#[test]
fn many_stale_codes_still_one_call() {
    let mut store = RateStore::new();
    let codes = universe(&["AED", "AFN", "ALL", "AMD", "ANG", "AOA", "ARS", "AUD"]);
    let report = run_cycle(&mut store, &codes, today(), &answered("{\"rates\":{}}"));
    assert_eq!(report.stale, 8);
    assert_eq!(report.upstream_calls, 1);
}

#[test]
fn stale_count_is_the_same_every_time() {
    let codes = universe(&["USD", "EUR", "GBP", "JPY", "CHF"]);
    for _ in 0..1000 {
        let mut store = RateStore::new();
        store.upsert(row("USD", 1.0, Some(today()), 1)).unwrap();
        store.upsert(row("EUR", 1.0, Some(yesterday()), 2)).unwrap();
        store.upsert(row("GBP", 1.0, None, 3)).unwrap();
        store.upsert(row("JPY", 1.0, Some(today()), 4)).unwrap();
        let outcome = evaluate_universe(&mut store, &codes, today());
        assert_eq!(outcome.stale, 3);
        assert!(outcome.needs_fetch());
    }
}

#[test]
fn stale_count_does_not_depend_on_order() {
    let orders = [
        ["USD", "EUR", "GBP", "JPY"],
        ["JPY", "GBP", "EUR", "USD"],
        ["EUR", "JPY", "USD", "GBP"],
    ];
    for order in orders {
        let mut store = RateStore::new();
        store.upsert(row("USD", 1.0, Some(today()), 1)).unwrap();
        store.upsert(row("EUR", 1.0, Some(yesterday()), 2)).unwrap();
        let outcome = evaluate_universe(&mut store, &universe(&order), today());
        assert_eq!(outcome.stale, 3);
    }
}

#[test]
fn evaluation_creates_placeholders_in_universe_order() {
    let mut store = RateStore::new();
    store.upsert(row("EUR", 1.0, Some(yesterday()), 2)).unwrap();
    let outcome =
        evaluate_universe(&mut store, &universe(&["USD", "EUR", "GBP", "AED"]), today());
    assert_eq!(outcome.stale, 4);
    let created: Vec<Option<&str>> = outcome.created.iter().map(|r| r.name.as_deref()).collect();
    assert_eq!(created, vec![Some("USD"), Some("GBP"), Some("AED")]);
    assert_eq!(store.len(), 4);
    assert_eq!(store.find_by_code("EUR").unwrap().last_update_day, Some(yesterday()));
}

#[test]
fn evaluation_of_empty_universe_finds_nothing() {
    let mut store = RateStore::new();
    store.upsert(row("EUR", 1.0, Some(yesterday()), 2)).unwrap();
    let outcome = evaluate_universe(&mut store, &universe(&[]), today());
    assert_eq!(outcome.stale, 0);
    assert!(!outcome.needs_fetch());
    assert!(outcome.created.is_empty());
    assert_eq!(store.len(), 1);
}

#[test]
fn apply_leaves_codes_outside_the_universe_alone() {
    let mut store = RateStore::new();
    store.upsert(row("USD", 1.0, Some(yesterday()), 1)).unwrap();
    store.upsert(row("XXX", 7.0, Some(yesterday()), 2)).unwrap();
    let table = interpret(&answered("{\"rates\":{\"USD\":1.3,\"XXX\":8.0}}")).unwrap();
    let written = apply_rates(&mut store, &universe(&["USD", "EUR"]), today(), &table);
    assert_eq!(written.len(), 1);
    assert_eq!(written[0].name.as_deref(), Some("USD"));
    assert_eq!(written[0].rate, Some(rate(1.3)));
    assert_eq!(store.find_by_code("USD").unwrap().rate, Some(rate(1.3)));
    assert_eq!(store.find_by_code("XXX").unwrap().rate, Some(rate(7.0)));
    assert_eq!(store.find_by_code("XXX").unwrap().last_update_day, Some(yesterday()));
    assert!(store.find_by_code("EUR").is_none());
}

#[test]
fn evaluate_now_judges_every_code_on_the_day_it_returns() {
    let mut store = RateStore::new();
    store.upsert(row("USD", 1.0, Some(Day::new(i32::MIN, 1, 1)), 1)).unwrap();
    store.upsert(row("EUR", 1.0, Some(Day::new(i32::MAX, 12, 31)), 2)).unwrap();
    let codes = universe(&["USD", "EUR", "GBP"]);
    match evaluate_now(&mut store, &codes) {
        Some((day, outcome)) => {
            assert!(1 <= day.month && day.month <= 12);
            assert!(1 <= day.day && day.day <= 31);
            let usd = if day.after(&Day::new(i32::MIN, 1, 1)) {
                Freshness::Stale
            } else {
                Freshness::Fresh
            };
            let eur = if day.after(&Day::new(i32::MAX, 12, 31)) {
                Freshness::Stale
            } else {
                Freshness::Fresh
            };
            assert_eq!(outcome.standings, vec![usd, eur, Freshness::Missing]);
            assert_eq!(outcome.created.len(), 1);
            assert!(store.contains("GBP"));
        }
        None => {
            assert_eq!(store.len(), 2);
            assert!(!store.contains("GBP"));
        }
    }
}

#[test]
fn fresh_row_takes_the_fetched_rate_when_an_answer_is_written_back() {
    let mut store = RateStore::new();
    store.upsert(row("USD", 1.08, Some(today()), 1)).unwrap();
    let report = run_cycle(
        &mut store,
        &universe(&["USD", "EUR"]),
        today(),
        &answered("{\"rates\":{\"USD\":1.5,\"EUR\":1.0}}"),
    );
    assert_eq!(report.upstream_calls, 1);
    assert_eq!(report.written.len(), 2);
    let usd = store.find_by_code("USD").unwrap();
    assert_eq!(usd.id, Some(1));
    assert_eq!(usd.rate, Some(rate(1.5)));
    assert_eq!(usd.last_update_day, Some(today()));
}

#[test]
fn fresh_row_is_untouched_when_the_call_fails() {
    let mut store = RateStore::new();
    store.upsert(row("USD", 1.08, Some(today()), 1)).unwrap();
    let report =
        run_cycle(&mut store, &universe(&["USD", "EUR"]), today(), &UpstreamReply::Unreachable);
    assert_eq!(report.upstream_calls, 1);
    assert!(report.written.is_empty());
    assert_eq!(report.created.len(), 1);
    assert_eq!(report.created[0].name.as_deref(), Some("EUR"));
    let usd = store.find_by_code("USD").unwrap();
    assert_eq!(usd.id, Some(1));
    assert_eq!(usd.rate, Some(rate(1.08)));
    assert_eq!(usd.last_update_day, Some(today()));
}

#[test]
fn report_lists_the_standing_of_each_code() {
    let mut store = RateStore::new();
    store.upsert(row("USD", 1.0, Some(today()), 1)).unwrap();
    store.upsert(row("EUR", 1.0, Some(yesterday()), 2)).unwrap();
    store.upsert(row("GBP", 1.0, None, 3)).unwrap();
    let report = run_cycle(
        &mut store,
        &universe(&["GBP", "JPY", "USD", "EUR"]),
        today(),
        &UpstreamReply::Unreachable,
    );
    assert_eq!(
        report.standings,
        vec![Freshness::Stale, Freshness::Missing, Freshness::Fresh, Freshness::Stale]
    );
    assert_eq!(report.stale, 3);
}

#[test]
fn evaluate_on_a_day_judges_every_code_on_it() {
    let mut store = RateStore::new();
    store.upsert(row("USD", 1.0, Some(today()), 1)).unwrap();
    store.upsert(row("EUR", 1.0, Some(yesterday()), 2)).unwrap();
    let (day, outcome) = evaluate_on(&mut store, &universe(&["USD", "EUR", "GBP"]), Some(today()))
        .expect("a day was given");
    assert_eq!(day, today());
    assert_eq!(outcome.standings, vec![Freshness::Fresh, Freshness::Stale, Freshness::Missing]);
    assert_eq!(outcome.stale, 2);
    assert_eq!(outcome.created.len(), 1);
    assert_eq!(outcome.created[0].name.as_deref(), Some("GBP"));
    assert_eq!(store.len(), 3);
}

#[test]
fn evaluate_on_no_day_looks_at_nothing() {
    let mut store = RateStore::new();
    store.upsert(row("USD", 1.0, Some(yesterday()), 1)).unwrap();
    assert!(evaluate_on(&mut store, &universe(&["USD", "EUR"]), None).is_none());
    assert_eq!(store.len(), 1);
    assert!(!store.contains("EUR"));
    assert_eq!(store.find_by_code("USD").unwrap().last_update_day, Some(yesterday()));
}
