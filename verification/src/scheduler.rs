//! The run as a whole: one pass, and after it a pass every so many seconds.
//!
//! A failure of the first pass ends the run. A failure of any later pass is
//! a warning, and the run goes on.

use crate::cli::CliParams;
use crate::cycle::CycleOutcome;
use crate::error::CycleError;
use vstd::prelude::*;

verus! {

/// The shortest pause between two passes, in seconds.
pub const MIN_INTERVAL: u64 = 5;

/// The longest pause between two passes, in seconds.
pub const MAX_INTERVAL: u64 = 3600;

/// How far a run has come.
#[derive(Clone, Copy, Debug, PartialEq, Eq, Structural)]
pub enum SchedulerState {
    /// The first pass is to be run.
    FirstCycle,
    /// The run pauses for `interval` seconds; `warning` holds the failure
    /// of the pass before, if it failed.
    Sleeping { interval: u64, warning: Option<CycleError> },
    /// A further pass is to be run.
    Cycling { interval: u64 },
    /// The single pass of the run went through.
    Done,
    /// The first pass failed.
    Aborted(CycleError),
}

/// What happened since the last action.
#[derive(Clone, Copy, Debug, PartialEq, Eq, Structural)]
pub enum SchedulerEvent {
    /// The pass that was asked for ended in this way.
    CycleEnded(CycleOutcome),
    /// The pause is over.
    Woke,
}

/// What the caller is to do next for a run.
#[derive(Clone, Copy, Debug, PartialEq, Eq, Structural)]
pub enum SchedulerAction {
    /// Run one pass and answer `CycleEnded`.
    RunCycle,
    /// Report `warning`, if there is one, pause for `secs` seconds and
    /// answer `Woke`.
    Sleep { secs: u64, warning: Option<CycleError> },
    /// End the run in good order.
    Stop,
    /// Report the failure and end the run as failed.
    Abort(CycleError),
}

/// The pause for a wanted interval of `secs` seconds: at least five seconds
/// and at most an hour.
pub open spec fn clamped_interval(secs: u64) -> u64 {
    if secs < MIN_INTERVAL {
        MIN_INTERVAL
    } else if secs > MAX_INTERVAL {
        MAX_INTERVAL
    } else {
        secs
    }
}

/// The failure that an outcome carries, if it is one.
pub open spec fn failure_of(outcome: CycleOutcome) -> Option<CycleError> {
    match outcome {
        CycleOutcome::Failed(error) => Some(error),
        _ => None,
    }
}

impl SchedulerState {
    /// The pause of a run in its loop is five seconds at least and an hour
    /// at most.
    pub open spec fn well_formed(&self) -> bool {
        match self {
            SchedulerState::Sleeping { interval, .. } => MIN_INTERVAL <= *interval <= MAX_INTERVAL,
            SchedulerState::Cycling { interval } => MIN_INTERVAL <= *interval <= MAX_INTERVAL,
            _ => true,
        }
    }

    /// The action that this state waits for.
    pub open spec fn action(&self) -> SchedulerAction {
        match self {
            SchedulerState::FirstCycle => SchedulerAction::RunCycle,
            SchedulerState::Sleeping { interval, warning } => SchedulerAction::Sleep {
                secs: *interval,
                warning: *warning,
            },
            SchedulerState::Cycling { .. } => SchedulerAction::RunCycle,
            SchedulerState::Done => SchedulerAction::Stop,
            SchedulerState::Aborted(error) => SchedulerAction::Abort(*error),
        }
    }

    /// The run has ended.
    pub open spec fn is_final(&self) -> bool {
        self is Done || self is Aborted
    }

    /// The run is in its loop of pauses and passes.
    pub open spec fn repeats(&self) -> bool {
        self is Sleeping || self is Cycling
    }
}

/// The state that follows `state` once `event` has come in.
///
/// After the first pass the run is over if the pass failed or no interval
/// is set; else it pauses, and from then on pause and pass take turns
/// whatever the passes end in. An event that the state does not wait for
/// leaves it as it is.
pub open spec fn scheduler_next(
    cli: CliParams,
    state: SchedulerState,
    event: SchedulerEvent,
) -> SchedulerState {
    match (state, event) {
        (
            SchedulerState::FirstCycle,
            SchedulerEvent::CycleEnded(CycleOutcome::Failed(error)),
        ) => SchedulerState::Aborted(error),
        (SchedulerState::FirstCycle, SchedulerEvent::CycleEnded(_)) => match cli.repeat {
            Some(secs) => SchedulerState::Sleeping {
                interval: clamped_interval(secs),
                warning: None,
            },
            None => SchedulerState::Done,
        },
        (SchedulerState::Sleeping { interval, .. }, SchedulerEvent::Woke) => SchedulerState::Cycling {
            interval,
        },
        (
            SchedulerState::Cycling { interval },
            SchedulerEvent::CycleEnded(outcome),
        ) => SchedulerState::Sleeping { interval, warning: failure_of(outcome) },
        (state, _) => state,
    }
}

/// The state that a run is in after the events of `events`, in order.
pub open spec fn scheduler_run(
    cli: CliParams,
    state: SchedulerState,
    events: Seq<SchedulerEvent>,
) -> SchedulerState
    decreases events.len(),
{
    if events.len() == 0 {
        state
    } else {
        scheduler_next(cli, scheduler_run(cli, state, events.drop_last()), events.last())
    }
}

/// The events of a run in which pass after pass ends as `outcomes` say, and
/// each is followed by its pause.
pub open spec fn repeated_passes(outcomes: Seq<CycleOutcome>) -> Seq<SchedulerEvent>
    decreases outcomes.len(),
{
    if outcomes.len() == 0 {
        Seq::empty()
    } else {
        repeated_passes(outcomes.drop_last()).push(
            SchedulerEvent::CycleEnded(outcomes.last()),
        ).push(SchedulerEvent::Woke)
    }
}

/// Limits the pause between two passes to at least five seconds and at most
/// an hour.
pub fn clamp_interval(secs: u64) -> (interval: u64)
    ensures
        interval == clamped_interval(secs),
        MIN_INTERVAL <= interval <= MAX_INTERVAL,
{
    if secs < MIN_INTERVAL {
        MIN_INTERVAL
    } else if secs > MAX_INTERVAL {
        MAX_INTERVAL
    } else {
        secs
    }
}

/// Where a run starts.
pub fn scheduler_start() -> (state: SchedulerState)
    ensures
        state == SchedulerState::FirstCycle,
        state.well_formed(),
{
    SchedulerState::FirstCycle
}

/// Tells what the caller is to do in `state`.
pub fn scheduler_action(state: &SchedulerState) -> (action: SchedulerAction)
    ensures
        action == state.action(),
{
    match state {
        SchedulerState::FirstCycle => SchedulerAction::RunCycle,
        SchedulerState::Sleeping { interval, warning } => SchedulerAction::Sleep {
            secs: *interval,
            warning: *warning,
        },
        SchedulerState::Cycling { .. } => SchedulerAction::RunCycle,
        SchedulerState::Done => SchedulerAction::Stop,
        SchedulerState::Aborted(error) => SchedulerAction::Abort(*error),
    }
}

/// Advances a run by one event.
pub fn scheduler_step(cli: &CliParams, state: SchedulerState, event: SchedulerEvent) -> (next:
    SchedulerState)
    ensures
        next == scheduler_next(*cli, state, event),
        state.well_formed() ==> next.well_formed(),
{
    match state {
        SchedulerState::FirstCycle => match event {
            SchedulerEvent::CycleEnded(CycleOutcome::Failed(error)) => SchedulerState::Aborted(
                error,
            ),
            SchedulerEvent::CycleEnded(_) => match cli.repeat {
                Some(secs) => SchedulerState::Sleeping {
                    interval: clamp_interval(secs),
                    warning: None,
                },
                None => SchedulerState::Done,
            },
            SchedulerEvent::Woke => state,
        },
        SchedulerState::Sleeping { interval, .. } => match event {
            SchedulerEvent::Woke => SchedulerState::Cycling { interval },
            SchedulerEvent::CycleEnded(_) => state,
        },
        SchedulerState::Cycling { interval } => match event {
            SchedulerEvent::CycleEnded(outcome) => SchedulerState::Sleeping {
                interval,
                warning: match outcome {
                    CycleOutcome::Failed(error) => Some(error),
                    _ => None,
                },
            },
            SchedulerEvent::Woke => state,
        },
        SchedulerState::Done => state,
        SchedulerState::Aborted(_) => state,
    }
}

/// Feeding one more event is one more step.
pub proof fn scheduler_run_push(
    cli: CliParams,
    state: SchedulerState,
    events: Seq<SchedulerEvent>,
    event: SchedulerEvent,
)
    ensures
        scheduler_run(cli, state, events.push(event)) == scheduler_next(
            cli,
            scheduler_run(cli, state, events),
            event,
        ),
{
    assert(events.push(event).drop_last() =~= events);
}

/// A run that has ended stays as it is, whatever comes in.
pub proof fn ended_run_stays_ended(
    cli: CliParams,
    state: SchedulerState,
    events: Seq<SchedulerEvent>,
)
    requires
        state.is_final(),
    ensures
        scheduler_run(cli, state, events) == state,
    decreases events.len(),
{
    if events.len() > 0 {
        ended_run_stays_ended(cli, state, events.drop_last());
    }
}

/// If the first pass fails, the run ends as failed and no further pass or
/// pause follows, whether an interval is set or not and whatever comes in
/// afterwards.
pub proof fn first_failure_ends_run(
    cli: CliParams,
    error: CycleError,
    later: Seq<SchedulerEvent>,
)
    ensures
        scheduler_next(
            cli,
            SchedulerState::FirstCycle,
            SchedulerEvent::CycleEnded(CycleOutcome::Failed(error)),
        ) == SchedulerState::Aborted(error),
        scheduler_run(cli, SchedulerState::Aborted(error), later) == SchedulerState::Aborted(
            error,
        ),
        SchedulerState::Aborted(error).action() == SchedulerAction::Abort(error),
{
    ended_run_stays_ended(cli, SchedulerState::Aborted(error), later);
}

/// Without an interval, a first pass that did not fail ends the run in good
/// order; with one, the run pauses for the interval, limited to five
/// seconds at least and an hour at most.
pub proof fn first_success_continues(cli: CliParams, outcome: CycleOutcome)
    requires
        !(outcome is Failed),
    ensures
        cli.repeat is None ==> scheduler_next(
            cli,
            SchedulerState::FirstCycle,
            SchedulerEvent::CycleEnded(outcome),
        ) == SchedulerState::Done,
        cli.repeat matches Some(secs) ==> scheduler_next(
            cli,
            SchedulerState::FirstCycle,
            SchedulerEvent::CycleEnded(outcome),
        ) == (SchedulerState::Sleeping { interval: clamped_interval(secs), warning: None }),
        cli.repeat matches Some(secs) ==> MIN_INTERVAL <= clamped_interval(secs) <= MAX_INTERVAL,
{
}

/// A pass that fails inside the loop is followed by a pause and then by the
/// next pass, as one that went through is; only the pause carries the
/// failure as a warning.
pub proof fn later_failure_is_survived(cli: CliParams, interval: u64, outcome: CycleOutcome)
    ensures
        scheduler_next(
            cli,
            SchedulerState::Cycling { interval },
            SchedulerEvent::CycleEnded(outcome),
        ) == (SchedulerState::Sleeping { interval, warning: failure_of(outcome) }),
        scheduler_next(
            cli,
            SchedulerState::Sleeping { interval, warning: failure_of(outcome) },
            SchedulerEvent::Woke,
        ) == (SchedulerState::Cycling { interval }),
        (SchedulerState::Cycling { interval }).action() == SchedulerAction::RunCycle,
{
}

/// Once the run is in its loop it never ends by itself.
pub proof fn loop_never_ends(cli: CliParams, state: SchedulerState, events: Seq<SchedulerEvent>)
    requires
        state.repeats(),
    ensures
        scheduler_run(cli, state, events).repeats(),
    decreases events.len(),
{
    if events.len() > 0 {
        loop_never_ends(cli, state, events.drop_last());
    }
}

/// With an interval set and a first pass that did not fail, the run asks for
/// the next pass after every pass and its pause, however many of the later
/// passes fail.
pub proof fn every_pass_is_followed_by_another(cli: CliParams, outcomes: Seq<CycleOutcome>)
    requires
        cli.repeat is Some,
        outcomes.len() > 0,
        !(outcomes[0] is Failed),
    ensures
        scheduler_run(cli, SchedulerState::FirstCycle, repeated_passes(outcomes)) == (
        SchedulerState::Cycling { interval: clamped_interval(cli.repeat.unwrap()) }),
        scheduler_run(cli, SchedulerState::FirstCycle, repeated_passes(outcomes)).action()
            == SchedulerAction::RunCycle,
    decreases outcomes.len(),
{
    let before = repeated_passes(outcomes.drop_last());
    let ended = SchedulerEvent::CycleEnded(outcomes.last());
    scheduler_run_push(cli, SchedulerState::FirstCycle, before, ended);
    scheduler_run_push(cli, SchedulerState::FirstCycle, before.push(ended), SchedulerEvent::Woke);
    if outcomes.len() > 1 {
        assert(outcomes.drop_last()[0] == outcomes[0]);
        every_pass_is_followed_by_another(cli, outcomes.drop_last());
    } else {
        assert(outcomes.last() == outcomes[0]);
        assert(before =~= Seq::<SchedulerEvent>::empty());
    }
}

} // verus!
