//! One pass of the brightness control: read the display, read the scene,
//! decide, and write or skip.
//!
//! The pass is a state machine. The caller performs the action that the
//! state asks for and hands the answer in as an event; nothing is kept from
//! one pass to the next.

use crate::camera::{estimated, get_camera_brightness, Frame};
use crate::cli::CliParams;
use crate::error::CycleError;
use crate::utils::{normalize, normalized};
use vstd::prelude::*;

verus! {

/// Why a pass left the display alone.
#[derive(Clone, Copy, Debug, PartialEq, Eq, Structural)]
pub enum SkipReason {
    /// The wanted level is no further from the current one than the
    /// tolerance allows.
    WithinTolerance,
}

/// How a pass ended.
#[derive(Clone, Copy, Debug, PartialEq, Eq, Structural)]
pub enum CycleOutcome {
    /// The display was set to this level.
    Applied(u8),
    /// The display was left alone.
    Skipped(SkipReason),
    /// The pass failed.
    Failed(CycleError),
}

/// How far a pass has come.
#[derive(Clone, Copy, Debug, PartialEq, Eq, Structural)]
pub enum CycleState {
    /// Nothing was done yet; the current level is to be read.
    Start,
    /// The current level was read; the scene is to be captured.
    ReadCurrent { current: u8 },
    /// The change was found large enough; `level` is to be written.
    Apply { level: u8 },
    /// The pass is over.
    End(CycleOutcome),
}

/// What the display or the camera answered to the last action.
#[derive(Clone, Debug, PartialEq, Eq)]
pub enum CycleEvent {
    /// The display reports this level.
    CurrentLevel(u8),
    /// The level of the display could not be read.
    SinkReadFailed,
    /// The camera delivered this frame.
    Scene(Frame),
    /// The camera delivered no frame.
    CaptureFailed(CycleError),
    /// The display took the new level.
    Written,
    /// The display refused the new level.
    SinkWriteFailed,
}

/// What the caller is to do next for a pass.
#[derive(Clone, Copy, Debug, PartialEq, Eq, Structural)]
pub enum CycleAction {
    /// Read the level of the display; answer `CurrentLevel` or
    /// `SinkReadFailed`.
    ReadSink,
    /// Capture one frame; answer `Scene` or `CaptureFailed`.
    CaptureScene,
    /// Set the display to this level; answer `Written` or
    /// `SinkWriteFailed`.
    WriteSink(u8),
    /// Nothing more; the pass ended in this way.
    Finish(CycleOutcome),
}

/// The distance between two levels.
pub open spec fn distance(current: u8, target: u8) -> nat {
    if current <= target {
        (target - current) as nat
    } else {
        (current - target) as nat
    }
}

/// What a pass makes of a current level and a raw estimate of the scene:
/// the estimate is mapped into the configured range, and the result is
/// written only if it is further from the current level than the tolerance.
pub open spec fn decided(cli: CliParams, current: u8, raw: u8) -> CycleState {
    let target = normalized(raw as int, cli.min as int, cli.max as int) as u8;
    if distance(current, target) > cli.tolerence {
        CycleState::Apply { level: target }
    } else {
        CycleState::End(CycleOutcome::Skipped(SkipReason::WithinTolerance))
    }
}

impl CycleState {
    /// The level that this state is about to write, or has written.
    pub open spec fn level(&self) -> Option<u8> {
        match self {
            CycleState::Apply { level } => Some(*level),
            CycleState::End(CycleOutcome::Applied(level)) => Some(*level),
            _ => None,
        }
    }

    /// A level that is written is a percentage, and under valid settings it
    /// lies within the configured range.
    pub open spec fn respects(&self, cli: CliParams) -> bool {
        self.level() matches Some(level) ==> level <= 100 && (cli.valid() ==> cli.min <= level
            <= cli.max)
    }

    /// The action that this state waits for.
    pub open spec fn action(&self) -> CycleAction {
        match self {
            CycleState::Start => CycleAction::ReadSink,
            CycleState::ReadCurrent { .. } => CycleAction::CaptureScene,
            CycleState::Apply { level } => CycleAction::WriteSink(*level),
            CycleState::End(outcome) => CycleAction::Finish(*outcome),
        }
    }

    /// The number of answers that the pass may still take.
    pub open spec fn steps_left(&self) -> nat {
        match self {
            CycleState::Start => 3,
            CycleState::ReadCurrent { .. } => 2,
            CycleState::Apply { .. } => 1,
            CycleState::End(_) => 0,
        }
    }
}

impl CycleEvent {
    /// The event answers the action that `state` waits for.
    pub open spec fn answers(&self, state: CycleState) -> bool {
        match state {
            CycleState::Start => self is CurrentLevel || self is SinkReadFailed,
            CycleState::ReadCurrent { .. } => self is Scene || self is CaptureFailed,
            CycleState::Apply { .. } => self is Written || self is SinkWriteFailed,
            CycleState::End(_) => false,
        }
    }
}

/// The state that follows `state` once `event` has come in.
///
/// A failure ends the pass with the error of the stage that failed. An event
/// that the state does not wait for leaves it as it is.
pub open spec fn cycle_next(cli: CliParams, state: CycleState, event: CycleEvent) -> CycleState {
    match (state, event) {
        (CycleState::Start, CycleEvent::CurrentLevel(current)) => CycleState::ReadCurrent {
            current,
        },
        (CycleState::Start, CycleEvent::SinkReadFailed) => CycleState::End(
            CycleOutcome::Failed(CycleError::SinkReadError),
        ),
        (CycleState::ReadCurrent { current }, CycleEvent::Scene(frame)) => match estimated(
            frame.width,
            frame.height,
            frame.pixels@,
        ) {
            Ok(raw) => decided(cli, current, raw),
            Err(error) => CycleState::End(CycleOutcome::Failed(error)),
        },
        (CycleState::ReadCurrent { .. }, CycleEvent::CaptureFailed(error)) => CycleState::End(
            CycleOutcome::Failed(error),
        ),
        (CycleState::Apply { level }, CycleEvent::Written) => CycleState::End(
            CycleOutcome::Applied(level),
        ),
        (CycleState::Apply { .. }, CycleEvent::SinkWriteFailed) => CycleState::End(
            CycleOutcome::Failed(CycleError::SinkWriteError),
        ),
        (state, _) => state,
    }
}

/// Tells whether `target` is further from `current` than `tolerance` allows.
pub fn exceeds_tolerance(current: u8, target: u8, tolerance: u8) -> (far: bool)
    ensures
        far == (distance(current, target) > tolerance),
{
    let apart: u8 = if current <= target {
        target - current
    } else {
        current - target
    };
    apart > tolerance
}

/// Decides what to do with a raw estimate of the scene, given the level that
/// the display has now.
///
/// The estimate is mapped into the configured range. If the mapped level is
/// further from the current one than the tolerance, it is to be written;
/// otherwise the pass ends and the display is left alone.
pub fn decide(cli: &CliParams, current: u8, raw: u8) -> (next: CycleState)
    ensures
        next == decided(*cli, current, raw),
        raw <= 100 ==> next.respects(*cli),
{
    proof {
        if cli.valid() && raw <= 100 {
            crate::utils::normalize_stays_in_range(raw, cli.min, cli.max);
        }
    }
    let target = normalize(raw, cli.min, cli.max);
    if exceeds_tolerance(current, target, cli.tolerence) {
        CycleState::Apply { level: target }
    } else {
        CycleState::End(CycleOutcome::Skipped(SkipReason::WithinTolerance))
    }
}

/// Where a pass starts.
pub fn cycle_start() -> (state: CycleState)
    ensures
        state == CycleState::Start,
        forall|cli: CliParams| state.respects(cli),
{
    CycleState::Start
}

/// Tells what the caller is to do in `state`.
pub fn cycle_action(state: &CycleState) -> (action: CycleAction)
    ensures
        action == state.action(),
{
    match state {
        CycleState::Start => CycleAction::ReadSink,
        CycleState::ReadCurrent { .. } => CycleAction::CaptureScene,
        CycleState::Apply { level } => CycleAction::WriteSink(*level),
        CycleState::End(outcome) => CycleAction::Finish(*outcome),
    }
}

/// Advances a pass by one event.
///
/// The current level is read first; the scene is captured and estimated
/// only after that; and a level is written only after both, and only where
/// the mapped estimate is further from the current level than the tolerance.
pub fn adjust_brightness_cycle(cli: &CliParams, state: CycleState, event: CycleEvent) -> (next:
    CycleState)
    ensures
        next == cycle_next(*cli, state, event),
        state.respects(*cli) ==> next.respects(*cli),
{
    match state {
        CycleState::Start => match event {
            CycleEvent::CurrentLevel(current) => CycleState::ReadCurrent { current },
            CycleEvent::SinkReadFailed => CycleState::End(
                CycleOutcome::Failed(CycleError::SinkReadError),
            ),
            _ => state,
        },
        CycleState::ReadCurrent { current } => match event {
            CycleEvent::Scene(frame) => match get_camera_brightness(frame) {
                Ok(raw) => decide(cli, current, raw),
                Err(error) => CycleState::End(CycleOutcome::Failed(error)),
            },
            CycleEvent::CaptureFailed(error) => CycleState::End(CycleOutcome::Failed(error)),
            _ => state,
        },
        CycleState::Apply { level } => match event {
            CycleEvent::Written => CycleState::End(CycleOutcome::Applied(level)),
            CycleEvent::SinkWriteFailed => CycleState::End(
                CycleOutcome::Failed(CycleError::SinkWriteError),
            ),
            _ => state,
        },
        CycleState::End(_) => state,
    }
}

/// A change within the tolerance is skipped, a larger one is applied, and
/// the level that is applied is the mapped estimate.
pub proof fn decision_follows_tolerance(cli: CliParams, current: u8, raw: u8)
    ensures
        ({
            let target = normalized(raw as int, cli.min as int, cli.max as int) as u8;
            &&& distance(current, target) <= cli.tolerence ==> decided(cli, current, raw)
                == CycleState::End(CycleOutcome::Skipped(SkipReason::WithinTolerance))
            &&& distance(current, target) > cli.tolerence ==> decided(cli, current, raw)
                == (CycleState::Apply { level: target })
        }),
{
}

/// With valid settings, a level that is to be written for an estimate of at
/// most one hundred percent lies within the configured range.
pub proof fn applied_level_in_range(cli: CliParams, current: u8, raw: u8)
    requires
        cli.valid(),
        raw <= 100,
    ensures
        decided(cli, current, raw) matches CycleState::Apply { level } ==> cli.min <= level
            <= cli.max,
        decided(cli, current, raw).respects(cli),
{
    crate::utils::normalize_stays_in_range(raw, cli.min, cli.max);
}

/// A level is written only after both readings succeeded: the only way into
/// `Apply` leads from `ReadCurrent` over a frame that could be estimated,
/// and no failed reading is followed by a write.
pub proof fn write_needs_both_readings(cli: CliParams, state: CycleState, event: CycleEvent)
    requires
        cycle_next(cli, state, event) is Apply,
        !(state is Apply),
    ensures
        state is ReadCurrent,
        event matches CycleEvent::Scene(frame) && estimated(
            frame.width,
            frame.height,
            frame.pixels@,
        ) is Ok,
{
}

/// Every answer that the state waits for brings the pass one step nearer to
/// its end, any other event leaves the state as it is, and a pass that is
/// over stays so: a pass takes three answers at most.
pub proof fn cycle_makes_progress(cli: CliParams, state: CycleState, event: CycleEvent)
    ensures
        event.answers(state) ==> cycle_next(cli, state, event).steps_left() < state.steps_left(),
        !event.answers(state) ==> cycle_next(cli, state, event) == state,
        state is End ==> cycle_next(cli, state, event) == state,
{
}

/// A failure of a stage ends the pass with that stage's error, and a level
/// that the display took ends it as applied.
pub proof fn answers_end_cycle(cli: CliParams, state: CycleState, event: CycleEvent)
    ensures
        state is Start && event is SinkReadFailed ==> cycle_next(cli, state, event)
            == CycleState::End(CycleOutcome::Failed(CycleError::SinkReadError)),
        event matches CycleEvent::CaptureFailed(error) ==> (state is ReadCurrent ==> cycle_next(
            cli,
            state,
            event,
        ) == CycleState::End(CycleOutcome::Failed(error))),
        state is Apply && event is SinkWriteFailed ==> cycle_next(cli, state, event)
            == CycleState::End(CycleOutcome::Failed(CycleError::SinkWriteError)),
        state matches CycleState::Apply { level } ==> (event is Written ==> cycle_next(
            cli,
            state,
            event,
        ) == CycleState::End(CycleOutcome::Applied(level))),
{
}

} // verus!
