//! Brightness percentages and the arithmetic every component shares.

use vstd::prelude::*;

verus! {

/// A brightness value is a percentage in `[0, 100]`.
pub open spec fn is_percent(v: int) -> bool {
    0 <= v <= 100
}

/// The delta application policy: `current + delta`, clamped to `[0, 100]`.
pub open spec fn apply_spec(current: int, delta: int) -> int {
    let sum = current + delta;
    if sum < 0 {
        0
    } else if sum > 100 {
        100
    } else {
        sum
    }
}

/// Applies a signed delta to a brightness percentage, clamping the result
/// to `[0, 100]`. Shared by the command server and the control surface.
pub fn add_brightness(brightness: u8, delta: i16) -> (r: u8)
    ensures
        r == apply_spec(brightness as int, delta as int),
        is_percent(r as int),
{
    let sum: i32 = brightness as i32 + delta as i32;
    if sum < 0 {
        0
    } else if sum > 100 {
        100
    } else {
        sum as u8
    }
}

/// `r` is the clamped application of `delta` to some `u8` value: all a
/// caller can know of a read-modify-write on a cell that other threads
/// mutate too.
pub open spec fn applies_some(r: int, delta: int) -> bool {
    exists|b: u8| r == apply_spec(b as int, delta)
}

/// The clamp an absolute assignment performs: values above 100 are capped.
/// (A `u8` cannot be below 0, so capping is all that is left of the clamp.)
pub open spec fn set_spec(v: int) -> int {
    if v > 100 {
        100
    } else {
        v
    }
}

/// Caps an absolute brightness request at 100.
pub fn clamp_percent(v: u8) -> (r: u8)
    ensures
        r == set_spec(v as int),
        is_percent(r as int),
{
    if v > 100 {
        100
    } else {
        v
    }
}

/// The hardware-native value for a percentage: `max * percent / 100`,
/// rounded to the nearest integer.
pub open spec fn hw_value_spec(max: int, percent: int) -> int {
    (max * percent + 50) / 100
}

/// Converts a brightness percentage to the device's native scale. The device
/// reports its own maximum; the result never exceeds it, so it is always a
/// value the device accepts.
pub fn percent_to_hw(max: u32, percent: u8) -> (r: u32)
    requires
        percent <= 100,
    ensures
        r == hw_value_spec(max as int, percent as int),
        r <= max,
{
    proof {
        assert(max as int * percent as int <= 0xffff_ffff * 100) by (nonlinear_arith)
            requires
                max as int <= 0xffff_ffff,
                0 <= percent as int <= 100,
        ;
    }
    let wide: u64 = (max as u64) * (percent as u64);
    let out: u64 = (wide + 50) / 100;
    proof {
        assert((max as int * percent as int + 50) / 100 <= max as int) by (nonlinear_arith)
            requires
                percent as int <= 100,
                max as int >= 0,
        ;
    }
    out as u32
}

/// The clamp keeps every result in range: for any in-range current value and
/// any delta in `[-100, 100]` (indeed for any delta at all), the applied
/// value is again in `[0, 100]`.
pub proof fn lemma_apply_in_range(current: int, delta: int)
    requires
        is_percent(current),
        -100 <= delta <= 100,
    ensures
        is_percent(apply_spec(current, delta)),
{
}

} // verus!
