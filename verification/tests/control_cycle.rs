use brightctrl::camera::Frame;
use brightctrl::cli::CliParams;
use brightctrl::cycle::{
    adjust_brightness_cycle, cycle_action, cycle_start, decide, exceeds_tolerance, CycleAction,
    CycleEvent, CycleOutcome, CycleState, SkipReason,
};
use brightctrl::error::CycleError;

fn settings(min: u8, max: u8, tolerence: u8) -> CliParams {
    CliParams { repeat: None, tolerence, min, max, verbose: String::from("Error") }
}

fn grey(level: u8) -> Frame {
    Frame { width: 2, height: 2, pixels: vec![level; 12] }
}

fn run(cli: &CliParams, events: Vec<CycleEvent>) -> (CycleState, Vec<CycleAction>) {
    let mut state = cycle_start();
    let mut actions = vec![cycle_action(&state)];
    for event in events {
        state = adjust_brightness_cycle(cli, state, event);
        actions.push(cycle_action(&state));
    }
    (state, actions)
}

#[test]
fn small_difference_is_within_tolerance() {
    assert!(!exceeds_tolerance(50, 55, 10));
    assert!(!exceeds_tolerance(55, 50, 10));
}

#[test]
fn large_difference_exceeds_tolerance() {
    assert!(exceeds_tolerance(50, 65, 10));
    assert!(exceeds_tolerance(65, 50, 10));
}

#[test]
fn difference_equal_to_tolerance_is_skipped() {
    assert!(!exceeds_tolerance(50, 60, 10));
    assert!(exceeds_tolerance(50, 61, 10));
    assert!(!exceeds_tolerance(7, 7, 0));
    assert!(exceeds_tolerance(7, 8, 0));
    assert!(!exceeds_tolerance(0, 255, 255));
}

#[test]
fn decide_skips_within_tolerance() {
    let cli = settings(0, 100, 10);
    assert_eq!(
        decide(&cli, 50, 55),
        CycleState::End(CycleOutcome::Skipped(SkipReason::WithinTolerance))
    );
}

#[test]
fn decide_applies_beyond_tolerance() {
    let cli = settings(0, 100, 10);
    assert_eq!(decide(&cli, 50, 65), CycleState::Apply { level: 65 });
}

#[test]
fn decide_compares_the_mapped_level() {
    let cli = settings(20, 80, 10);
    // raw 100 maps to 80, thirty above the current level
    assert_eq!(decide(&cli, 50, 100), CycleState::Apply { level: 80 });
    // raw 60 maps to 56, six above the current level
    assert_eq!(
        decide(&cli, 50, 60),
        CycleState::End(CycleOutcome::Skipped(SkipReason::WithinTolerance))
    );
    // raw 0 maps to 20, thirty below the current level
    assert_eq!(decide(&cli, 50, 0), CycleState::Apply { level: 20 });
}

#[test]
fn cycle_applies_a_large_change() {
    let cli = settings(0, 100, 10);
    let (state, actions) = run(
        &cli,
        vec![CycleEvent::CurrentLevel(20), CycleEvent::Scene(grey(255)), CycleEvent::Written],
    );
    assert_eq!(state, CycleState::End(CycleOutcome::Applied(100)));
    assert_eq!(
        actions,
        vec![
            CycleAction::ReadSink,
            CycleAction::CaptureScene,
            CycleAction::WriteSink(100),
            CycleAction::Finish(CycleOutcome::Applied(100)),
        ]
    );
}

#[test]
fn cycle_maps_the_estimate_into_the_range() {
    let cli = settings(20, 80, 10);
    // a grey of 128 is estimated at 50 percent, which maps to 50
    let (state, _) = run(
        &cli,
        vec![CycleEvent::CurrentLevel(10), CycleEvent::Scene(grey(128)), CycleEvent::Written],
    );
    assert_eq!(state, CycleState::End(CycleOutcome::Applied(50)));
    // black maps to the lower bound
    let (state, _) = run(
        &cli,
        vec![CycleEvent::CurrentLevel(90), CycleEvent::Scene(grey(0)), CycleEvent::Written],
    );
    assert_eq!(state, CycleState::End(CycleOutcome::Applied(20)));
}

#[test]
fn cycle_skips_a_small_change() {
    let cli = settings(0, 100, 10);
    let (state, actions) =
        run(&cli, vec![CycleEvent::CurrentLevel(45), CycleEvent::Scene(grey(128))]);
    assert_eq!(state, CycleState::End(CycleOutcome::Skipped(SkipReason::WithinTolerance)));
    assert_eq!(
        actions,
        vec![
            CycleAction::ReadSink,
            CycleAction::CaptureScene,
            CycleAction::Finish(CycleOutcome::Skipped(SkipReason::WithinTolerance)),
        ]
    );
}

#[test]
fn cycle_fails_when_the_display_cannot_be_read() {
    let cli = settings(0, 100, 10);
    let (state, actions) = run(&cli, vec![CycleEvent::SinkReadFailed]);
    assert_eq!(state, CycleState::End(CycleOutcome::Failed(CycleError::SinkReadError)));
    assert_eq!(
        actions,
        vec![
            CycleAction::ReadSink,
            CycleAction::Finish(CycleOutcome::Failed(CycleError::SinkReadError)),
        ]
    );
}

#[test]
fn cycle_fails_when_the_capture_fails() {
    let cli = settings(0, 100, 10);
    for error in [CycleError::DeviceUnavailable, CycleError::NoFrameAvailable] {
        let (state, actions) =
            run(&cli, vec![CycleEvent::CurrentLevel(50), CycleEvent::CaptureFailed(error)]);
        assert_eq!(state, CycleState::End(CycleOutcome::Failed(error)));
        assert!(!actions.iter().any(|action| matches!(action, CycleAction::WriteSink(_))));
    }
}

#[test]
fn cycle_fails_on_a_frame_that_cannot_be_estimated() {
    let cli = settings(0, 100, 10);
    let empty = Frame { width: 0, height: 0, pixels: vec![] };
    let (state, _) = run(&cli, vec![CycleEvent::CurrentLevel(50), CycleEvent::Scene(empty)]);
    assert_eq!(state, CycleState::End(CycleOutcome::Failed(CycleError::EmptyFrame)));
    let short = Frame { width: 2, height: 2, pixels: vec![0; 5] };
    let (state, actions) = run(&cli, vec![CycleEvent::CurrentLevel(50), CycleEvent::Scene(short)]);
    assert_eq!(state, CycleState::End(CycleOutcome::Failed(CycleError::InvalidFrame)));
    assert!(!actions.iter().any(|action| matches!(action, CycleAction::WriteSink(_))));
}

#[test]
fn cycle_fails_when_the_display_refuses_the_level() {
    let cli = settings(0, 100, 10);
    let (state, _) = run(
        &cli,
        vec![CycleEvent::CurrentLevel(0), CycleEvent::Scene(grey(255)), CycleEvent::SinkWriteFailed],
    );
    assert_eq!(state, CycleState::End(CycleOutcome::Failed(CycleError::SinkWriteError)));
}

#[test]
fn cycle_ignores_what_it_does_not_wait_for() {
    let cli = settings(0, 100, 10);
    let start = cycle_start();
    assert_eq!(adjust_brightness_cycle(&cli, start, CycleEvent::Written), start);
    assert_eq!(adjust_brightness_cycle(&cli, start, CycleEvent::Scene(grey(255))), start);
    let read = CycleState::ReadCurrent { current: 30 };
    assert_eq!(adjust_brightness_cycle(&cli, read, CycleEvent::CurrentLevel(90)), read);
    assert_eq!(adjust_brightness_cycle(&cli, read, CycleEvent::Written), read);
    let apply = CycleState::Apply { level: 70 };
    assert_eq!(adjust_brightness_cycle(&cli, apply, CycleEvent::Scene(grey(0))), apply);
    assert_eq!(adjust_brightness_cycle(&cli, apply, CycleEvent::SinkReadFailed), apply);
}

#[test]
fn cycle_that_ended_stays_as_it_is() {
    let cli = settings(0, 100, 10);
    let ended = CycleState::End(CycleOutcome::Applied(40));
    for event in [
        CycleEvent::CurrentLevel(1),
        CycleEvent::SinkReadFailed,
        CycleEvent::Scene(grey(9)),
        CycleEvent::CaptureFailed(CycleError::NoFrameAvailable),
        CycleEvent::Written,
        CycleEvent::SinkWriteFailed,
    ] {
        assert_eq!(adjust_brightness_cycle(&cli, ended, event), ended);
    }
}

#[test]
fn cycle_writes_only_within_the_configured_range() {
    for (min, max) in [(0u8, 100u8), (20, 80), (35, 35), (0, 10), (90, 100)] {
        let cli = settings(min, max, 0);
        for shade in [0u8, 1, 60, 127, 128, 200, 254, 255] {
            for current in [0u8, 50, 100] {
                let (state, _) = run(
                    &cli,
                    vec![CycleEvent::CurrentLevel(current), CycleEvent::Scene(grey(shade))],
                );
                if let CycleState::Apply { level } = state {
                    assert!(min <= level && level <= max);
                }
            }
        }
    }
}
