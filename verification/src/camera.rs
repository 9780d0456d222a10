//! Frames, their luminance, and the bounded retry of a capture.

use crate::error::CycleError;
use vstd::prelude::*;

verus! {

/// One captured image: `height` rows of `width` pixels, three bytes a pixel
/// (red, green, blue).
#[derive(Clone, Debug, PartialEq, Eq)]
pub struct Frame {
    pub width: u32,
    pub height: u32,
    pub pixels: Vec<u8>,
}

/// The number of pixels of an image of the given dimensions.
pub open spec fn pixels_of(width: u32, height: u32) -> nat {
    (width as nat) * (height as nat)
}

impl Frame {
    /// The number of pixels that the dimensions announce.
    pub open spec fn pixel_count(&self) -> nat {
        pixels_of(self.width, self.height)
    }

    /// The pixel buffer holds three bytes for each announced pixel.
    pub open spec fn well_formed(&self) -> bool {
        self.pixels@.len() == 3 * self.pixel_count()
    }
}

/// The number by which the width is scaled in a packed frame size.
pub const WIDTH_SCALE: u64 = 0x1_0000_0000;

/// Takes a packed frame size apart: the capture device reports the width in
/// the upper and the height in the lower thirty-two bits of one number. The
/// result holds the width first.
pub fn frame_dimensions(size: u64) -> (dims: (u32, u32))
    ensures
        dims.0 as int == size as int / 0x1_0000_0000,
        dims.1 as int == size as int % 0x1_0000_0000,
        dims.0 * WIDTH_SCALE + dims.1 == size,
{
    let width: u64 = size / WIDTH_SCALE;
    let height: u64 = size % WIDTH_SCALE;
    (width as u32, height as u32)
}

/// Every byte of `bytes` is `value`.
pub open spec fn uniform(bytes: Seq<u8>, value: u8) -> bool {
    forall|i: int| 0 <= i < bytes.len() ==> bytes[i] == value
}

/// The sum of the samples of a luminance plane.
pub open spec fn luma_sum(plane: Seq<u8>) -> nat
    decreases plane.len(),
{
    if plane.len() == 0 {
        0
    } else {
        luma_sum(plane.drop_last()) + plane.last() as nat
    }
}

/// The mean of the samples of a plane, each taken as a fraction of 255, in
/// percent and rounded down. It is meant for a plane that is not empty.
pub open spec fn luminance_percent(plane: Seq<u8>) -> nat {
    100 * luma_sum(plane) / (255 * plane.len())
}

/// No sample counts for more than 255.
pub proof fn luma_sum_bounded(plane: Seq<u8>)
    ensures
        luma_sum(plane) <= 255 * plane.len(),
    decreases plane.len(),
{
    if plane.len() > 0 {
        luma_sum_bounded(plane.drop_last());
    }
}

/// A plane whose samples all are `value` sums to `value` times its length.
pub proof fn luma_sum_uniform(plane: Seq<u8>, value: u8)
    requires
        uniform(plane, value),
    ensures
        luma_sum(plane) == value * plane.len(),
    decreases plane.len(),
{
    if plane.len() > 0 {
        luma_sum_uniform(plane.drop_last(), value);
        assert(value * plane.len() == value * (plane.len() - 1) + value) by (nonlinear_arith);
    }
}

/// The mean luminance of a plane never exceeds one hundred percent.
pub proof fn luminance_percent_bounded(plane: Seq<u8>)
    requires
        plane.len() > 0,
    ensures
        luminance_percent(plane) <= 100,
{
    luma_sum_bounded(plane);
    let total = 100 * luma_sum(plane);
    let full = 255 * plane.len();
    assert(total / full <= 100) by (nonlinear_arith)
        requires
            0 <= total <= 100 * full,
            full > 0,
    ;
}

/// A plane that is black throughout has a mean luminance of zero, one that
/// is white throughout of one hundred percent.
pub proof fn luminance_percent_extremes(plane: Seq<u8>)
    requires
        plane.len() > 0,
    ensures
        uniform(plane, 0) ==> luminance_percent(plane) == 0,
        uniform(plane, 255) ==> luminance_percent(plane) == 100,
{
    let full = 255 * plane.len();
    if uniform(plane, 0) {
        luma_sum_uniform(plane, 0);
        assert(0nat / full == 0) by (nonlinear_arith)
            requires
                full > 0,
        ;
    }
    if uniform(plane, 255) {
        luma_sum_uniform(plane, 255);
        assert((100 * full) / full == 100) by (nonlinear_arith)
            requires
                full > 0,
        ;
    }
}

/// The mean luminance of a plane of samples, in percent.
///
/// Each sample counts as its fraction of 255; the mean of these fractions is
/// taken over the whole plane, multiplied by one hundred and rounded down. A
/// plane without samples has no mean and is refused.
pub fn mean_luminance(plane: &[u8]) -> (percent: Result<u8, CycleError>)
    ensures
        plane@.len() == 0 ==> percent == Err::<u8, CycleError>(CycleError::EmptyFrame),
        plane@.len() > 0 ==> percent == Ok::<u8, CycleError>(luminance_percent(plane@) as u8),
        percent matches Ok(p) ==> p <= 100 && p == luminance_percent(plane@),
{
    let n: usize = plane.len();
    if n == 0 {
        return Err(CycleError::EmptyFrame);
    }
    let mut sum: u128 = 0;
    let mut i: usize = 0;
    while i < n
        invariant
            i <= n,
            n == plane@.len(),
            sum == luma_sum(plane@.take(i as int)),
            sum <= 255 * i,
        decreases n - i,
    {
        assert(plane@.take(i + 1).drop_last() =~= plane@.take(i as int));
        sum = sum + plane[i] as u128;
        i = i + 1;
    }
    assert(plane@.take(n as int) =~= plane@);
    proof {
        luminance_percent_bounded(plane@);
    }
    let full: u128 = 255 * (n as u128);
    let percent: u128 = 100 * sum / full;
    Ok(percent as u8)
}

/// The luminance plane that the `image` crate derives from an RGB buffer of
/// the given dimensions: one sample a pixel, row by row, or `None` where the
/// crate takes the buffer to be too short for the dimensions. It is spoken
/// of only for an image that has at least one pixel.
pub uninterp spec fn luma_plane(width: u32, height: u32, pixels: Seq<u8>) -> Option<Seq<u8>>;

/// Hands the buffer to `image::RgbImage::from_raw` and converts the image
/// with `image::DynamicImage::to_luma8`.
///
/// The crate computes each sample in floating point from the three channels
/// of one pixel, weighted for perceived brightness, and rounds it to a byte;
/// the samples themselves are therefore named, not spelled out. What is
/// claimed beside the name is read off the crate's source: `from_raw` accepts
/// a buffer exactly when it holds at least three bytes a pixel, the plane has
/// one sample a pixel, a pixel whose channels all are zero comes out zero,
/// and one whose channels all are 255 comes out 255 (the weights sum to one
/// and the product is rounded to the nearest byte).
///
/// An image without pixels is left out: `from_raw` multiplies the width by
/// three before it looks at the height, so whether it accepts a wide image
/// of height zero depends on the width of `usize`.
#[verifier::external_body]
fn to_luma8(width: u32, height: u32, pixels: Vec<u8>) -> (luma: Option<Vec<u8>>)
    requires
        pixels_of(width, height) > 0,
    ensures
        luma matches Some(plane) ==> luma_plane(width, height, pixels@) == Some(plane@),
        luma is None ==> luma_plane(width, height, pixels@) is None,
        luma is Some <==> 3 * pixels_of(width, height) <= pixels@.len(),
        luma matches Some(plane) ==> plane@.len() == pixels_of(width, height),
        luma matches Some(plane) ==> (uniform(pixels@, 0) ==> uniform(plane@, 0)),
        luma matches Some(plane) ==> (uniform(pixels@, 255) ==> uniform(plane@, 255)),
{
    let rgb = image::RgbImage::from_raw(width, height, pixels)?;
    Some(image::DynamicImage::ImageRgb8(rgb).to_luma8().into_raw())
}

/// What a frame of the given dimensions and bytes is estimated at: the mean
/// luminance of its plane in percent, unless it has no pixels or its buffer
/// does not hold exactly three bytes a pixel.
pub open spec fn estimated(width: u32, height: u32, pixels: Seq<u8>) -> Result<u8, CycleError> {
    if pixels_of(width, height) == 0 {
        Err(CycleError::EmptyFrame)
    } else if pixels.len() != 3 * pixels_of(width, height) {
        Err(CycleError::InvalidFrame)
    } else {
        Ok(luminance_percent(luma_plane(width, height, pixels).unwrap()) as u8)
    }
}

/// Estimates the brightness of the scene that `frame` shows, in percent.
///
/// The frame is reduced to one luminance sample a pixel, and the mean of the
/// samples is taken. A frame without pixels is refused as `EmptyFrame`,
/// whatever its buffer holds; any other frame whose buffer does not hold
/// exactly three bytes a pixel is refused as `InvalidFrame`.
pub fn get_camera_brightness(frame: Frame) -> (level: Result<u8, CycleError>)
    ensures
        level == estimated(frame.width, frame.height, frame.pixels@),
        level matches Ok(percent) ==> percent <= 100,
        level is Ok <==> frame.pixel_count() > 0 && frame.well_formed(),
        level is Ok ==> (luma_plane(frame.width, frame.height, frame.pixels@) matches Some(plane)
            && plane.len() == frame.pixel_count()),
        frame.pixel_count() == 0 ==> level == Err::<u8, CycleError>(CycleError::EmptyFrame),
        level is Ok && uniform(frame.pixels@, 0) ==> level == Ok::<u8, CycleError>(0),
        level is Ok && uniform(frame.pixels@, 255) ==> level == Ok::<u8, CycleError>(100),
{
    assert(0 <= frame.width * frame.height <= 0xffff_ffff * 0xffff_ffff) by (nonlinear_arith)
        requires
            0 <= frame.width <= 0xffff_ffff,
            0 <= frame.height <= 0xffff_ffff,
    ;
    let count: u64 = frame.width as u64 * frame.height as u64;
    if count == 0 {
        return Err(CycleError::EmptyFrame);
    }
    let needed: u128 = 3 * (count as u128);
    if frame.pixels.len() as u128 != needed {
        return Err(CycleError::InvalidFrame);
    }
    match to_luma8(frame.width, frame.height, frame.pixels) {
        Some(plane) => {
            proof {
                luminance_percent_extremes(plane@);
            }
            mean_luminance(plane.as_slice())
        },
        // a buffer of the right length is never turned down
        None => Err(CycleError::InvalidFrame),
    }
}

/// The number of polls after which a capture gives up.
pub const MAX_ATTEMPTS: u8 = 10;

/// How far a capture has come.
#[derive(Clone, Debug, PartialEq, Eq)]
pub enum CaptureState {
    /// The device has not been opened yet.
    Opening,
    /// The device is open and was polled `attempts` times without a frame.
    Polling { attempts: u8 },
    /// A poll yielded this frame.
    Captured(Frame),
    /// The capture has failed.
    Failed(CycleError),
}

/// What the device did in answer to the last action.
#[derive(Clone, Debug, PartialEq, Eq)]
pub enum CaptureEvent {
    /// The device was found, opened and set to deliver RGB frames.
    Opened,
    /// A poll yielded a frame.
    Sample(Frame),
    /// A poll returned without a frame.
    NoSample,
    /// Opening, configuring or polling the device failed.
    DeviceError,
}

/// What the caller is to do next for a capture.
#[derive(Clone, Copy, Debug, PartialEq, Eq, Structural)]
pub enum CaptureAction {
    /// Open the device and answer `Opened` or `DeviceError`.
    Open,
    /// Poll the device once, without waiting, and answer `Sample`,
    /// `NoSample` or `DeviceError`.
    Poll,
    /// Release the device; the state holds the result.
    Finish,
}

impl CaptureState {
    /// Fewer polls were counted than a capture makes at most.
    pub open spec fn well_formed(&self) -> bool {
        self matches CaptureState::Polling { attempts } ==> attempts < MAX_ATTEMPTS
    }

    /// The capture has ended, with a frame or with a failure.
    pub open spec fn is_final(&self) -> bool {
        self is Captured || self is Failed
    }

    /// The action that this state waits for.
    pub open spec fn action(&self) -> CaptureAction {
        match self {
            CaptureState::Opening => CaptureAction::Open,
            CaptureState::Polling { .. } => CaptureAction::Poll,
            _ => CaptureAction::Finish,
        }
    }

    /// The number of polls that may still be answered before the capture
    /// has ended.
    pub open spec fn polls_left(&self) -> nat {
        match self {
            CaptureState::Opening => MAX_ATTEMPTS as nat,
            CaptureState::Polling { attempts } => if *attempts < MAX_ATTEMPTS - 1 {
                (MAX_ATTEMPTS - *attempts) as nat
            } else {
                1
            },
            _ => 0,
        }
    }
}

impl CaptureEvent {
    /// The event is the answer to a poll.
    pub open spec fn answers_poll(&self) -> bool {
        !(self is Opened)
    }
}

/// The state that follows `state` once `event` has come in.
///
/// A failure of the device ends the capture at once. A poll without a frame
/// is counted, and the tenth such poll ends the capture. An event that the
/// state does not wait for leaves it as it is.
pub open spec fn capture_next(state: CaptureState, event: CaptureEvent) -> CaptureState {
    match (state, event) {
        (CaptureState::Opening, CaptureEvent::Opened) => CaptureState::Polling { attempts: 0 },
        (CaptureState::Opening, CaptureEvent::DeviceError) => CaptureState::Failed(
            CycleError::DeviceUnavailable,
        ),
        (CaptureState::Polling { .. }, CaptureEvent::Sample(frame)) => CaptureState::Captured(
            frame,
        ),
        (CaptureState::Polling { attempts }, CaptureEvent::NoSample) => if attempts
            >= MAX_ATTEMPTS - 1 {
            CaptureState::Failed(CycleError::NoFrameAvailable)
        } else {
            CaptureState::Polling { attempts: (attempts + 1) as u8 }
        },
        (CaptureState::Polling { .. }, CaptureEvent::DeviceError) => CaptureState::Failed(
            CycleError::DeviceUnavailable,
        ),
        (state, _) => state,
    }
}

/// The state that a capture is in after the events of `events`, in order.
pub open spec fn capture_run(state: CaptureState, events: Seq<CaptureEvent>) -> CaptureState
    decreases events.len(),
{
    if events.len() == 0 {
        state
    } else {
        capture_next(capture_run(state, events.drop_last()), events.last())
    }
}

/// Where a capture starts.
pub fn capture_start() -> (state: CaptureState)
    ensures
        state == CaptureState::Opening,
        state.well_formed(),
{
    CaptureState::Opening
}

/// Tells what the caller is to do in `state`.
pub fn capture_action(state: &CaptureState) -> (action: CaptureAction)
    ensures
        action == state.action(),
{
    match state {
        CaptureState::Opening => CaptureAction::Open,
        CaptureState::Polling { .. } => CaptureAction::Poll,
        _ => CaptureAction::Finish,
    }
}

/// Advances a capture by one event.
///
/// The caller opens the device, polls it as long as the state asks for it,
/// and hands each answer in here. The capture ends with the first frame,
/// with the first failure of the device, or after ten polls without a
/// frame.
pub fn capture_from_camera(state: CaptureState, event: CaptureEvent) -> (next: CaptureState)
    ensures
        next == capture_next(state, event),
        state.well_formed() ==> next.well_formed(),
{
    match state {
        CaptureState::Opening => match event {
            CaptureEvent::Opened => CaptureState::Polling { attempts: 0 },
            CaptureEvent::DeviceError => CaptureState::Failed(CycleError::DeviceUnavailable),
            _ => CaptureState::Opening,
        },
        CaptureState::Polling { attempts } => match event {
            CaptureEvent::Sample(frame) => CaptureState::Captured(frame),
            CaptureEvent::NoSample => if attempts >= MAX_ATTEMPTS - 1 {
                CaptureState::Failed(CycleError::NoFrameAvailable)
            } else {
                CaptureState::Polling { attempts: attempts + 1 }
            },
            CaptureEvent::DeviceError => CaptureState::Failed(CycleError::DeviceUnavailable),
            CaptureEvent::Opened => CaptureState::Polling { attempts },
        },
        CaptureState::Captured(frame) => CaptureState::Captured(frame),
        CaptureState::Failed(error) => CaptureState::Failed(error),
    }
}

/// The result of a capture that has ended: the frame, or why there is none.
/// A capture that has not ended has no result yet.
pub fn capture_result(state: CaptureState) -> (result: Option<Result<Frame, CycleError>>)
    ensures
        result == (match state {
            CaptureState::Captured(frame) => Some(Ok::<Frame, CycleError>(frame)),
            CaptureState::Failed(error) => Some(Err::<Frame, CycleError>(error)),
            _ => None,
        }),
{
    match state {
        CaptureState::Captured(frame) => Some(Ok(frame)),
        CaptureState::Failed(error) => Some(Err(error)),
        _ => None,
    }
}

/// A capture that never gets a frame goes on polling up to the tenth poll
/// and then fails with `NoFrameAvailable`.
pub proof fn capture_gives_up(events: Seq<CaptureEvent>)
    requires
        forall|i: int| 0 <= i < events.len() ==> events[i] is NoSample,
    ensures
        events.len() < MAX_ATTEMPTS ==> capture_run(
            CaptureState::Polling { attempts: 0 },
            events,
        ) == (CaptureState::Polling { attempts: events.len() as u8 }),
        events.len() >= MAX_ATTEMPTS ==> capture_run(
            CaptureState::Polling { attempts: 0 },
            events,
        ) == CaptureState::Failed(CycleError::NoFrameAvailable),
    decreases events.len(),
{
    if events.len() > 0 {
        capture_gives_up(events.drop_last());
    }
}

/// No event adds to the polls that are left, every answer to a poll takes
/// one away, and only a state with polls left asks for a poll: a capture
/// polls ten times at most.
pub proof fn capture_polls_are_bounded(state: CaptureState, event: CaptureEvent)
    ensures
        state.polls_left() <= MAX_ATTEMPTS,
        capture_next(state, event).polls_left() <= state.polls_left(),
        state.action() == CaptureAction::Poll && event.answers_poll() ==> capture_next(
            state,
            event,
        ).polls_left() < state.polls_left(),
        state.action() == CaptureAction::Poll ==> state.polls_left() > 0,
        state.is_final() ==> capture_next(state, event) == state,
{
}

} // verus!
