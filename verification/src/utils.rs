//! Range mapping of brightness percentages, and a value paired with its
//! clean-up.

use vstd::prelude::*;

verus! {

/// The largest brightness level, in percent.
pub const MAX_LEVEL: u8 = 100;

/// `v` limited to the percentage range `0..=100`.
pub open spec fn clamp_percent(v: int) -> int {
    if v < 0 {
        0
    } else if v > 100 {
        100
    } else {
        v
    }
}

/// The raw percentage `n` mapped onto the range from `min` to `max`:
/// `n * (max - min) / 100 + min`, rounded down and limited to `0..=100`.
pub open spec fn normalized(n: int, min: int, max: int) -> int {
    clamp_percent(n * (max - min) / 100 + min)
}

/// Maps the raw estimate `n` onto the configured range `min..=max`.
///
/// The function is total: with `min > max` the scaled value may fall below
/// zero or above one hundred, and is limited to `0..=100` all the same.
pub fn normalize(n: u8, min: u8, max: u8) -> (level: u8)
    ensures
        level == normalized(n as int, min as int, max as int),
        level <= MAX_LEVEL,
{
    let span: i32 = max as i32 - min as i32;
    assert(-255 * 255 <= (n as int) * (span as int) <= 255 * 255) by (nonlinear_arith)
        requires
            0 <= n <= 255,
            -255 <= span <= 255,
    ;
    let scaled: i32 = n as i32 * span + 100 * (min as i32);
    assert((scaled as int) / 100 == (n as int) * (max as int - min as int) / 100 + min as int);
    if scaled < 0 {
        0
    } else {
        let whole: i32 = scaled / 100;
        if whole > 100 {
            MAX_LEVEL
        } else {
            whole as u8
        }
    }
}

/// A brighter scene never maps to a darker level: with `min <= max`, the
/// mapped level does not decrease when the raw estimate grows.
pub proof fn normalize_is_monotone(a: u8, b: u8, min: u8, max: u8)
    requires
        a <= b,
        min <= max,
    ensures
        normalized(a as int, min as int, max as int) <= normalized(
            b as int,
            min as int,
            max as int,
        ),
{
    assert((a as int) * (max as int - min as int) <= (b as int) * (max as int - min as int))
        by (nonlinear_arith)
        requires
            0 <= a <= b,
            min <= max,
    ;
}

/// With `min <= max <= 100`, a raw estimate of at most one hundred percent
/// is mapped into `min..=max`.
pub proof fn normalize_stays_in_range(n: u8, min: u8, max: u8)
    requires
        n <= 100,
        min <= max <= 100,
    ensures
        min <= normalized(n as int, min as int, max as int) <= max,
{
    assert(0 <= (n as int) * (max as int - min as int) <= 100 * (max as int - min as int))
        by (nonlinear_arith)
        requires
            0 <= n <= 100,
            min <= max,
    ;
}

/// With `min <= max <= 100`, the darkest estimate maps to `min` and the
/// brightest to `max`.
pub proof fn normalize_end_points(min: u8, max: u8)
    requires
        min <= max <= 100,
    ensures
        normalized(0, min as int, max as int) == min,
        normalized(100, min as int, max as int) == max,
{
}

/// A value together with the clean-up that is to run on it when its user is
/// done with it.
pub struct Handle<T, F> where F: for <'a>Fn(&'a mut T) {
    handle: T,
    drop_fn: F,
}

impl<T, F> Handle<T, F> where F: for <'a>Fn(&'a mut T) {
    /// The value that is held.
    pub closed spec fn view(&self) -> T {
        self.handle
    }

    /// The clean-up that `release` runs.
    pub closed spec fn cleanup(&self) -> F {
        self.drop_fn
    }

    /// Pairs `handle` with the clean-up `drop_fn`.
    pub fn new(handle: T, drop_fn: F) -> (guard: Self)
        ensures
            guard@ == handle,
            guard.cleanup() == drop_fn,
    {
        Self { handle, drop_fn }
    }

    /// Runs the clean-up on the held value, once, and gives back what the
    /// clean-up left of it.
    pub fn release(self) -> (value: T)
        requires
            forall|t: &mut T| call_requires(self.cleanup(), (t,)),
        ensures
            exists|t: &mut T|
                *t == self@ && *final(t) == value && call_ensures(self.cleanup(), (t,), ()),
    {
        let Handle { mut handle, drop_fn } = self;
        assert(drop_fn == self.cleanup());
        drop_fn(&mut handle);
        handle
    }
}

impl<T, F> std::ops::Deref for Handle<T, F> where F: for <'a>Fn(&'a mut T) {
    type Target = T;

    fn deref(&self) -> (value: &T)
        ensures
            *value == self@,
    {
        &self.handle
    }
}

} // verus!
