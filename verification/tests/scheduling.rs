use brightctrl::cli::CliParams;
use brightctrl::cycle::{CycleOutcome, SkipReason};
use brightctrl::error::CycleError;
use brightctrl::scheduler::{
    clamp_interval, scheduler_action, scheduler_start, scheduler_step, SchedulerAction,
    SchedulerEvent, SchedulerState, MAX_INTERVAL, MIN_INTERVAL,
};

fn settings(repeat: Option<u64>) -> CliParams {
    CliParams { repeat, tolerence: 10, min: 0, max: 100, verbose: String::from("Error") }
}

const SKIPPED: CycleOutcome = CycleOutcome::Skipped(SkipReason::WithinTolerance);

#[test]
fn interval_is_limited() {
    assert_eq!(MIN_INTERVAL, 5);
    assert_eq!(MAX_INTERVAL, 3600);
    assert_eq!(clamp_interval(0), 5);
    assert_eq!(clamp_interval(1), 5);
    assert_eq!(clamp_interval(4), 5);
    assert_eq!(clamp_interval(5), 5);
    assert_eq!(clamp_interval(6), 6);
    assert_eq!(clamp_interval(60), 60);
    assert_eq!(clamp_interval(3599), 3599);
    assert_eq!(clamp_interval(3600), 3600);
    assert_eq!(clamp_interval(3601), 3600);
    assert_eq!(clamp_interval(u64::MAX), 3600);
}

#[test]
fn run_starts_with_a_pass() {
    let state = scheduler_start();
    assert_eq!(state, SchedulerState::FirstCycle);
    assert_eq!(scheduler_action(&state), SchedulerAction::RunCycle);
}

#[test]
fn first_failure_ends_the_run_without_repeat() {
    let cli = settings(None);
    let failed = SchedulerEvent::CycleEnded(CycleOutcome::Failed(CycleError::DeviceUnavailable));
    let state = scheduler_step(&cli, scheduler_start(), failed);
    assert_eq!(state, SchedulerState::Aborted(CycleError::DeviceUnavailable));
    assert_eq!(scheduler_action(&state), SchedulerAction::Abort(CycleError::DeviceUnavailable));
}

#[test]
fn first_failure_ends_the_run_even_with_repeat() {
    let cli = settings(Some(60));
    for error in [
        CycleError::DeviceUnavailable,
        CycleError::NoFrameAvailable,
        CycleError::InvalidFrame,
        CycleError::EmptyFrame,
        CycleError::SinkReadError,
        CycleError::SinkWriteError,
    ] {
        let failed = SchedulerEvent::CycleEnded(CycleOutcome::Failed(error));
        let state = scheduler_step(&cli, scheduler_start(), failed);
        assert_eq!(state, SchedulerState::Aborted(error));
        assert_eq!(scheduler_action(&state), SchedulerAction::Abort(error));
        assert_eq!(scheduler_step(&cli, state, SchedulerEvent::Woke), state);
        assert_eq!(scheduler_step(&cli, state, SchedulerEvent::CycleEnded(SKIPPED)), state);
    }
}

#[test]
fn single_pass_ends_in_good_order() {
    let cli = settings(None);
    for outcome in [CycleOutcome::Applied(70), SKIPPED] {
        let state = scheduler_step(&cli, scheduler_start(), SchedulerEvent::CycleEnded(outcome));
        assert_eq!(state, SchedulerState::Done);
        assert_eq!(scheduler_action(&state), SchedulerAction::Stop);
        assert_eq!(scheduler_step(&cli, state, SchedulerEvent::Woke), state);
    }
}

#[test]
fn repeat_pauses_for_the_limited_interval() {
    for (wanted, pause) in [(1u64, 5u64), (5, 5), (20, 20), (3600, 3600), (86400, 3600)] {
        let cli = settings(Some(wanted));
        let state =
            scheduler_step(&cli, scheduler_start(), SchedulerEvent::CycleEnded(SKIPPED));
        assert_eq!(state, SchedulerState::Sleeping { interval: pause, warning: None });
        assert_eq!(
            scheduler_action(&state),
            SchedulerAction::Sleep { secs: pause, warning: None }
        );
    }
}

#[test]
fn later_failure_is_a_warning_and_the_loop_goes_on() {
    let cli = settings(Some(30));
    let mut state = scheduler_step(
        &cli,
        scheduler_start(),
        SchedulerEvent::CycleEnded(CycleOutcome::Applied(10)),
    );
    state = scheduler_step(&cli, state, SchedulerEvent::Woke);
    assert_eq!(state, SchedulerState::Cycling { interval: 30 });
    assert_eq!(scheduler_action(&state), SchedulerAction::RunCycle);

    let failed = SchedulerEvent::CycleEnded(CycleOutcome::Failed(CycleError::NoFrameAvailable));
    state = scheduler_step(&cli, state, failed);
    assert_eq!(
        state,
        SchedulerState::Sleeping { interval: 30, warning: Some(CycleError::NoFrameAvailable) }
    );
    assert_eq!(
        scheduler_action(&state),
        SchedulerAction::Sleep { secs: 30, warning: Some(CycleError::NoFrameAvailable) }
    );
    state = scheduler_step(&cli, state, SchedulerEvent::Woke);
    assert_eq!(state, SchedulerState::Cycling { interval: 30 });
    assert_eq!(scheduler_action(&state), SchedulerAction::RunCycle);
}

#[test]
fn loop_survives_any_number_of_failures() {
    let cli = settings(Some(5));
    let mut state =
        scheduler_step(&cli, scheduler_start(), SchedulerEvent::CycleEnded(SKIPPED));
    let mut passes = 1;
    for round in 0..200u32 {
        assert!(matches!(scheduler_action(&state), SchedulerAction::Sleep { secs: 5, .. }));
        state = scheduler_step(&cli, state, SchedulerEvent::Woke);
        assert_eq!(scheduler_action(&state), SchedulerAction::RunCycle);
        passes += 1;
        let outcome = match round % 3 {
            0 => CycleOutcome::Failed(CycleError::SinkWriteError),
            1 => CycleOutcome::Applied(33),
            _ => CycleOutcome::Failed(CycleError::DeviceUnavailable),
        };
        state = scheduler_step(&cli, state, SchedulerEvent::CycleEnded(outcome));
    }
    assert_eq!(passes, 201);
    assert!(matches!(state, SchedulerState::Sleeping { interval: 5, .. }));
}

#[test]
fn run_ignores_what_it_does_not_wait_for() {
    let cli = settings(Some(30));
    let first = scheduler_start();
    assert_eq!(scheduler_step(&cli, first, SchedulerEvent::Woke), first);
    let sleeping = SchedulerState::Sleeping { interval: 30, warning: None };
    assert_eq!(scheduler_step(&cli, sleeping, SchedulerEvent::CycleEnded(SKIPPED)), sleeping);
    let cycling = SchedulerState::Cycling { interval: 30 };
    assert_eq!(scheduler_step(&cli, cycling, SchedulerEvent::Woke), cycling);
}
