use rate_sync::scheduler::{
    Action, Event, Phase, Scheduler, Unexpected, DEFAULT_INTERVAL_SECONDS,
};

#[test]
fn scheduler_starts_between_cycles() {
    let scheduler = Scheduler::new(60);
    assert_eq!(scheduler.phase(), Phase::Sleeping);
    assert_eq!(scheduler.interval_seconds(), 60);
}

#[test]
fn default_pause_is_one_hour() {
    assert_eq!(DEFAULT_INTERVAL_SECONDS, 3600);
    assert_eq!(Scheduler::hourly().interval_seconds(), 3600);
}

#[test]
fn full_cycle_with_stale_codes() {
    let mut scheduler = Scheduler::new(60);
    assert_eq!(scheduler.step(Event::Woke), Ok(Action::Evaluate));
    assert_eq!(scheduler.phase(), Phase::Evaluating);
    assert_eq!(scheduler.step(Event::Evaluated { stale: 3 }), Ok(Action::Fetch));
    assert_eq!(scheduler.phase(), Phase::Fetching);
    assert_eq!(scheduler.step(Event::Answered { usable: true }), Ok(Action::Apply));
    assert_eq!(scheduler.phase(), Phase::Applying);
    assert_eq!(scheduler.step(Event::Applied), Ok(Action::Sleep { seconds: 60 }));
    assert_eq!(scheduler.phase(), Phase::Sleeping);
}

#[test]
fn nothing_stale_goes_straight_to_sleep() {
    let mut scheduler = Scheduler::new(3600);
    scheduler.step(Event::Woke).unwrap();
    assert_eq!(scheduler.step(Event::Evaluated { stale: 0 }), Ok(Action::Sleep { seconds: 3600 }));
    assert_eq!(scheduler.phase(), Phase::Sleeping);
}

#[test]
fn answer_without_rates_ends_the_cycle() {
    let mut scheduler = Scheduler::new(5);
    scheduler.step(Event::Woke).unwrap();
    scheduler.step(Event::Evaluated { stale: 1 }).unwrap();
    assert_eq!(scheduler.step(Event::Answered { usable: false }), Ok(Action::Sleep { seconds: 5 }));
    assert_eq!(scheduler.phase(), Phase::Sleeping);
}

#[test]
fn unexpected_event_is_refused_and_changes_nothing() {
    let mut scheduler = Scheduler::new(5);
    assert_eq!(
        scheduler.step(Event::Applied),
        Err(Unexpected { phase: Phase::Sleeping, event: Event::Applied })
    );
    assert_eq!(scheduler.phase(), Phase::Sleeping);
    scheduler.step(Event::Woke).unwrap();
    assert_eq!(
        scheduler.step(Event::Woke),
        Err(Unexpected { phase: Phase::Evaluating, event: Event::Woke })
    );
    assert_eq!(scheduler.phase(), Phase::Evaluating);
    scheduler.step(Event::Evaluated { stale: 2 }).unwrap();
    assert_eq!(
        scheduler.step(Event::Evaluated { stale: 2 }),
        Err(Unexpected { phase: Phase::Fetching, event: Event::Evaluated { stale: 2 } })
    );
    assert_eq!(scheduler.phase(), Phase::Fetching);
}

#[test]
fn at_most_one_fetch_between_two_sleeps() {
    let events = [
        Event::Woke,
        Event::Evaluated { stale: 4 },
        Event::Evaluated { stale: 4 },
        Event::Woke,
        Event::Answered { usable: true },
        Event::Answered { usable: true },
        Event::Applied,
        Event::Applied,
        Event::Woke,
        Event::Evaluated { stale: 0 },
        Event::Woke,
        Event::Evaluated { stale: 1 },
        Event::Answered { usable: false },
    ];
    let mut scheduler = Scheduler::new(1);
    let mut calls = 0;
    let mut sleeps = 0;
    for event in events {
        match scheduler.step(event) {
            Ok(Action::Fetch) => {
                calls += 1;
                assert!(calls <= 1);
            }
            Ok(Action::Sleep { seconds }) => {
                assert_eq!(seconds, 1);
                calls = 0;
                sleeps += 1;
            }
            _ => {}
        }
    }
    assert_eq!(sleeps, 3);
    assert_eq!(scheduler.phase(), Phase::Sleeping);
}

#[test]
fn a_caller_that_reports_what_was_asked_is_never_refused() {
    let mut scheduler = Scheduler::new(2);
    let mut event = Event::Woke;
    let mut fetches = 0;
    for round in 0..200usize {
        let action = scheduler.step(event).expect("the report is expected");
        event = match action {
            Action::Evaluate => Event::Evaluated { stale: round % 3 },
            Action::Fetch => {
                fetches += 1;
                Event::Answered { usable: round % 2 == 0 }
            }
            Action::Apply => Event::Applied,
            Action::Sleep { seconds } => {
                assert_eq!(seconds, 2);
                Event::Woke
            }
        };
    }
    assert!(fetches > 0);
}

#[test]
fn failed_evaluation_goes_to_sleep_without_a_call() {
    let mut scheduler = Scheduler::new(9);
    scheduler.step(Event::Woke).unwrap();
    assert_eq!(scheduler.step(Event::EvaluationFailed), Ok(Action::Sleep { seconds: 9 }));
    assert_eq!(scheduler.phase(), Phase::Sleeping);
    assert_eq!(
        scheduler.step(Event::EvaluationFailed),
        Err(Unexpected { phase: Phase::Sleeping, event: Event::EvaluationFailed })
    );
    assert_eq!(scheduler.step(Event::Woke), Ok(Action::Evaluate));
}
