//! Drives refresh cycles one after the other, with a pause between them.
//!
//! The scheduler decides what is done next; the caller does it and reports
//! back. A cycle is: look at every code, then ask the provider if something
//! is stale, then write the answer back if there is one, then sleep.

use vstd::prelude::*;

verus! {

/// The pause between two cycles that is used when none is configured: one
/// hour.
pub const DEFAULT_INTERVAL_SECONDS: u64 = 3600;

/// Where a cycle stands.
#[derive(Clone, Copy, Debug, PartialEq, Eq, Structural)]
pub enum Phase {
    /// Between two cycles.
    Sleeping,
    /// The codes are being looked at.
    Evaluating,
    /// The provider has been asked.
    Fetching,
    /// The answer is being written back.
    Applying,
}

/// What the caller reports.
#[derive(Clone, Copy, Debug, PartialEq, Eq, Structural)]
pub enum Event {
    /// The pause is over.
    Woke,
    /// Every code was looked at; `stale` of them have to be fetched.
    Evaluated { stale: usize },
    /// The codes could not be looked at, for want of a day or of the table.
    EvaluationFailed,
    /// The provider was asked; `usable` says whether it gave rates.
    Answered { usable: bool },
    /// The answer was written back.
    Applied,
}

/// What the caller is to do next.
#[derive(Clone, Copy, Debug, PartialEq, Eq, Structural)]
pub enum Action {
    /// Look at every code of the universe.
    Evaluate,
    /// Ask the provider, once, for the whole universe.
    Fetch,
    /// Write the answer back.
    Apply,
    /// Pause for this many seconds.
    Sleep { seconds: u64 },
}

/// An event that the phase does not wait for.
#[derive(Clone, Copy, Debug, PartialEq, Eq, Structural)]
pub struct Unexpected {
    pub phase: Phase,
    pub event: Event,
}

/// The next phase and the action to take, for an event the phase waits for.
pub open spec fn transition(phase: Phase, event: Event, interval: u64) -> Option<(Phase, Action)> {
    match (phase, event) {
        (Phase::Sleeping, Event::Woke) => Some((Phase::Evaluating, Action::Evaluate)),
        (Phase::Evaluating, Event::Evaluated { stale }) => if stale > 0 {
            Some((Phase::Fetching, Action::Fetch))
        } else {
            Some((Phase::Sleeping, Action::Sleep { seconds: interval }))
        },
        (Phase::Evaluating, Event::EvaluationFailed) => Some(
            (Phase::Sleeping, Action::Sleep { seconds: interval }),
        ),
        (Phase::Fetching, Event::Answered { usable }) => if usable {
            Some((Phase::Applying, Action::Apply))
        } else {
            Some((Phase::Sleeping, Action::Sleep { seconds: interval }))
        },
        (Phase::Applying, Event::Applied) => Some(
            (Phase::Sleeping, Action::Sleep { seconds: interval }),
        ),
        _ => None,
    }
}

/// The phase reached and the actions taken when a run of events is
/// reported, one after the other, starting in `phase`. Events that a phase
/// does not wait for are refused and change nothing.
pub open spec fn run(phase: Phase, events: Seq<Event>, interval: u64) -> (Phase, Seq<Action>)
    decreases events.len(),
{
    if events.len() == 0 {
        (phase, Seq::empty())
    } else {
        let (reached, actions) = run(phase, events.drop_last(), interval);
        match transition(reached, events.last(), interval) {
            Some((next, action)) => (next, actions.push(action)),
            None => (reached, actions),
        }
    }
}

/// How often the provider was asked since the last pause.
pub open spec fn calls_since_sleep(actions: Seq<Action>) -> nat
    decreases actions.len(),
{
    if actions.len() == 0 {
        0
    } else {
        match actions.last() {
            Action::Sleep { .. } => 0,
            Action::Fetch => calls_since_sleep(actions.drop_last()) + 1,
            _ => calls_since_sleep(actions.drop_last()),
        }
    }
}

/// Whether `event` is the report that `action` asks for.
pub open spec fn answers(action: Action, event: Event) -> bool {
    match action {
        Action::Evaluate => event is Evaluated || event is EvaluationFailed,
        Action::Fetch => event is Answered,
        Action::Apply => event is Applied,
        Action::Sleep { .. } => event is Woke,
    }
}

/// Runs cycles forever, one at a time.
pub struct Scheduler {
    interval_seconds: u64,
    phase: Phase,
}

impl Scheduler {
    pub closed spec fn phase_spec(&self) -> Phase {
        self.phase
    }

    pub closed spec fn interval_spec(&self) -> u64 {
        self.interval_seconds
    }

    /// A scheduler that is between two cycles and pauses for
    /// `interval_seconds` after each.
    pub fn new(interval_seconds: u64) -> (scheduler: Scheduler)
        ensures
            scheduler.phase_spec() == Phase::Sleeping,
            scheduler.interval_spec() == interval_seconds,
    {
        Scheduler { interval_seconds, phase: Phase::Sleeping }
    }

    /// A scheduler with the default pause of one hour.
    pub fn hourly() -> (scheduler: Scheduler)
        ensures
            scheduler.phase_spec() == Phase::Sleeping,
            scheduler.interval_spec() == DEFAULT_INTERVAL_SECONDS,
    {
        Scheduler::new(DEFAULT_INTERVAL_SECONDS)
    }

    #[verifier::when_used_as_spec(phase_spec)]
    pub fn phase(&self) -> (phase: Phase)
        ensures
            phase == self.phase_spec(),
    {
        self.phase
    }

    #[verifier::when_used_as_spec(interval_spec)]
    pub fn interval_seconds(&self) -> (seconds: u64)
        ensures
            seconds == self.interval_spec(),
    {
        self.interval_seconds
    }

    /// Takes the report of the caller and says what is to be done next.
    ///
    /// An event that the phase does not wait for is refused and the
    /// scheduler stays as it is.
    pub fn step(&mut self, event: Event) -> (next: Result<Action, Unexpected>)
        ensures
            final(self).interval_spec() == old(self).interval_spec(),
            match transition(old(self).phase_spec(), event, old(self).interval_spec()) {
                Some((phase, action)) => next == Ok::<Action, Unexpected>(action) && final(self).phase_spec() == phase,
                None => next == Err::<Action, Unexpected>(
                    Unexpected { phase: old(self).phase_spec(), event },
                ) && final(self).phase_spec() == old(self).phase_spec(),
            },
    {
        let pause = Action::Sleep { seconds: self.interval_seconds };
        let (phase, action) = match (self.phase, event) {
            (Phase::Sleeping, Event::Woke) => (Phase::Evaluating, Action::Evaluate),
            (Phase::Evaluating, Event::Evaluated { stale }) => if stale > 0 {
                (Phase::Fetching, Action::Fetch)
            } else {
                (Phase::Sleeping, pause)
            },
            (Phase::Evaluating, Event::EvaluationFailed) => (Phase::Sleeping, pause),
            (Phase::Fetching, Event::Answered { usable }) => if usable {
                (Phase::Applying, Action::Apply)
            } else {
                (Phase::Sleeping, pause)
            },
            (Phase::Applying, Event::Applied) => (Phase::Sleeping, pause),
            _ => {
                return Err(Unexpected { phase: self.phase, event });
            },
        };
        self.phase = phase;
        Ok(action)
    }
}

/// However the events fall, the provider is asked at most once between two
/// pauses, and not at all before the codes have been looked at. Cycles do
/// not overlap: a new one starts only from the pause.
pub proof fn lemma_one_call_per_cycle(events: Seq<Event>, interval: u64)
    ensures
        calls_since_sleep(run(Phase::Sleeping, events, interval).1) <= 1,
        calls_since_sleep(run(Phase::Sleeping, events, interval).1) == match run(
            Phase::Sleeping,
            events,
            interval,
        ).0 {
            Phase::Sleeping => 0nat,
            Phase::Evaluating => 0nat,
            Phase::Fetching => 1nat,
            Phase::Applying => 1nat,
        },
    decreases events.len(),
{
    if events.len() > 0 {
        lemma_one_call_per_cycle(events.drop_last(), interval);
        let (reached, actions) = run(Phase::Sleeping, events.drop_last(), interval);
        match transition(reached, events.last(), interval) {
            Some((next, action)) => {
                assert(actions.push(action).drop_last() =~= actions);
            },
            None => {},
        }
    }
}

/// The scheduler never gets stuck: the report that an action asks for is
/// always one that the next phase waits for. A caller that does what it is
/// told and reports it is never refused, so the cycles go on forever.
pub proof fn lemma_report_is_expected(
    phase: Phase,
    event: Event,
    interval: u64,
    report: Event,
)
    requires
        transition(phase, event, interval) matches Some((_, action)) && answers(action, report),
    ensures
        transition(phase, event, interval) matches Some((next, _)) && transition(
            next,
            report,
            interval,
        ) is Some,
{
}

/// The first report, that the pause is over, is expected by a new
/// scheduler.
pub proof fn lemma_wake_is_expected(interval: u64)
    ensures
        transition(Phase::Sleeping, Event::Woke, interval) == Some(
            (Phase::Evaluating, Action::Evaluate),
        ),
{
}

/// Whatever is reported, the scheduler ends up asleep again or waits for the
/// next report of the same cycle: a cycle that fails at any step goes to
/// the pause, and the next cycle tries again.
pub proof fn lemma_failure_leads_to_sleep(interval: u64)
    ensures
        transition(Phase::Evaluating, Event::EvaluationFailed, interval) == Some(
            (Phase::Sleeping, Action::Sleep { seconds: interval }),
        ),
        transition(Phase::Fetching, Event::Answered { usable: false }, interval) == Some(
            (Phase::Sleeping, Action::Sleep { seconds: interval }),
        ),
{
}

/// When nothing is stale the cycle ends without the provider being asked.
pub proof fn lemma_nothing_stale_no_call(interval: u64)
    ensures
        transition(Phase::Evaluating, Event::Evaluated { stale: 0 }, interval) == Some(
            (Phase::Sleeping, Action::Sleep { seconds: interval }),
        ),
{
}

/// The provider is asked only as the answer to a count above zero.
pub proof fn lemma_call_only_when_stale(phase: Phase, event: Event, interval: u64)
    requires
        transition(phase, event, interval) matches Some((_, action)) && action == Action::Fetch,
    ensures
        phase == Phase::Evaluating,
        event matches Event::Evaluated { stale } && stale > 0,
{
}

} // verus!
