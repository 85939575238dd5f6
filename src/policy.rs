//! Pure brightness policy: ambient light to target levels, manual steps and
//! idle dimming. Every rule truncates toward zero.

use vstd::prelude::*;

verus! {

/// Keyboard target for an ambient reading: a tenth of the maximum in the dark,
/// off otherwise.
pub open spec fn kbd_target(als: int, max: int) -> int {
    if als < 5 {
        max / 10
    } else {
        0
    }
}

/// Display target for an ambient reading:
/// `0.15 * (0.6 * max) + (als / 500) * (0.85 * 0.6 * max)`, which is
/// `max * (4500 + 51 * als) / 50000`, truncated and not clamped to `max`.
pub open spec fn dsp_target(als: int, max: int) -> int {
    max * (4500 + 51 * als) / 50000
}

/// One manual step down, floored at zero.
pub open spec fn stepped_down(val: int, step: int) -> int {
    if val >= step {
        val - step
    } else {
        0
    }
}

/// One manual step up, capped at `max`.
pub open spec fn stepped_up(val: int, step: int, max: int) -> int {
    if val + step > max {
        max
    } else {
        val + step
    }
}

/// `percent` hundredths of `level`, truncated.
pub open spec fn dimmed(percent: int, level: int) -> int {
    percent * level / 100
}

/// The largest value a level can hold.
pub open spec fn level_limit() -> int {
    u32::MAX as int
}

/// Keyboard backlight level for the ambient reading `als`.
pub fn als_to_kb(als: u32, kbd_max: u32) -> (r: u32)
    ensures
        r == kbd_target(als as int, kbd_max as int),
        als >= 5 ==> r == 0,
        als < 5 ==> r == kbd_max / 10,
{
    if als < 5 {
        kbd_max / 10
    } else {
        0
    }
}

/// Display backlight level for the ambient reading `als`; a value past what a
/// level can hold saturates.
pub fn als_to_dsp(als: u32, bl_max: u32) -> (r: u32)
    ensures
        dsp_target(als as int, bl_max as int) <= level_limit() ==> r == dsp_target(
            als as int,
            bl_max as int,
        ),
        dsp_target(als as int, bl_max as int) > level_limit() ==> r == u32::MAX,
{
    let factor: u128 = 4500 + 51 * (als as u128);
    assert((bl_max as u128) * factor <= 0xffff_ffff_u128 * (4500 + 51 * 0xffff_ffff_u128)) by (nonlinear_arith)
        requires
            bl_max <= 0xffff_ffff_u128,
            factor <= 4500 + 51 * 0xffff_ffff_u128,
            factor >= 0,
    ;
    let q: u128 = (bl_max as u128) * factor / 50000;
    if q > 0xffff_ffff {
        u32::MAX
    } else {
        q as u32
    }
}

/// One manual step down from `val`, never below zero.
pub fn step_down(val: u32, step: u32) -> (r: u32)
    ensures
        r == stepped_down(val as int, step as int),
{
    val.saturating_sub(step)
}

/// One manual step up from `val`, never above `max`.
pub fn step_up(val: u32, step: u32, max: u32) -> (r: u32)
    ensures
        r == stepped_up(val as int, step as int, max as int),
        r <= max,
{
    let new_val: u64 = val as u64 + step as u64;
    if new_val > max as u64 {
        max
    } else {
        new_val as u32
    }
}

/// The level written while idle: `percent` hundredths of `level`.
pub fn mult(percent: u32, level: u32) -> (r: u32)
    requires
        percent <= 100,
    ensures
        r == dimmed(percent as int, level as int),
        r <= level,
{
    assert(percent as u64 * level as u64 <= 100 * (level as u64)) by (nonlinear_arith)
        requires
            percent <= 100,
    ;
    let p: u64 = percent as u64 * level as u64;
    (p / 100) as u32
}

/// Stepping down then up again by the same step never ends above where it
/// began, when the step down did not hit the floor; a step up never passes
/// `max` and a step down never passes zero.
pub proof fn lemma_step_down_then_up(level: u32, step: u32, max: u32)
    ensures
        level >= step ==> stepped_up(stepped_down(level as int, step as int), step as int, max as int)
            <= level,
        stepped_up(level as int, step as int, max as int) <= max,
        stepped_down(level as int, step as int) >= 0,
{
}

} // verus!
