use vstd::prelude::*;

verus! {

/// Period of every PWM signal, in nanoseconds (20 ms).
pub const PERIOD: u32 = 20_000_000;

/// Shortest duty cycle ever written: full reverse.
pub const MIN_DUTY_CYCLE: u32 = 1_000_000;

/// Longest duty cycle ever written: full forward.
pub const MAX_DUTY_CYCLE: u32 = 2_000_000;

/// Duty cycle of a wheel at speed zero: the brake midpoint.
pub const BRAKE_DUTY_CYCLE: u32 = 1_500_000;

/// The affine part of the transfer function, before clamping.
pub open spec fn raw_duty(speed: int) -> int {
    (speed * 10000 + MIN_DUTY_CYCLE as int) / 2 + MIN_DUTY_CYCLE as int
}

/// The duty cycle, in nanoseconds, commanded for a speed: the affine map
/// clamped to the hardware's range.
pub open spec fn duty(speed: int) -> int {
    let raw = raw_duty(speed);
    if raw > MAX_DUTY_CYCLE as int {
        MAX_DUTY_CYCLE as int
    } else if raw < MIN_DUTY_CYCLE as int {
        MIN_DUTY_CYCLE as int
    } else {
        raw
    }
}

/// The right wheel is driven by the transfer function directly.
pub open spec fn right_duty(speed: int) -> int {
    duty(speed)
}

/// The left wheel faces the other way, so its speed is inverted first.
pub open spec fn left_duty(speed: int) -> int {
    duty(-speed)
}

/// Converts a speed, nominally between -100 (full reverse) and 100 (full
/// forward), to a duty cycle. Speeds beyond that range are clamped.
pub fn speed_to_duty_cycle(speed: i8) -> (r: u32)
    ensures
        r as int == duty(speed as int),
{
    duty_of_wide(speed as i32)
}

/// The transfer function on a widened speed, which may be the negation of
/// any `i8`.
fn duty_of_wide(speed: i32) -> (r: u32)
    requires
        -128 <= speed <= 128,
    ensures
        r as int == duty(speed as int),
{
    let raw: i32 = (speed * 10000 + MIN_DUTY_CYCLE as i32) / 2 + MIN_DUTY_CYCLE as i32;
    proof {
        // the numerator is even and the quotients agree for either sign
        assert((speed * 10000 + 1_000_000) % 2 == 0) by (nonlinear_arith)
            requires -128 <= speed <= 128;
    }
    if raw > MAX_DUTY_CYCLE as i32 {
        MAX_DUTY_CYCLE
    } else if raw < MIN_DUTY_CYCLE as i32 {
        MIN_DUTY_CYCLE
    } else {
        raw as u32
    }
}

/// Duty cycle for the right wheel at `speed`.
pub fn right_duty_cycle(speed: i8) -> (r: u32)
    ensures
        r as int == right_duty(speed as int),
{
    speed_to_duty_cycle(speed)
}

/// Duty cycle for the left wheel at `speed`: the transfer function of the
/// inverted speed, computed wide so that `-128` inverts too.
pub fn left_duty_cycle(speed: i8) -> (r: u32)
    ensures
        r as int == left_duty(speed as int),
{
    duty_of_wide(-(speed as i32))
}

/// Every speed, in range or not, maps into the hardware's duty cycle range.
pub proof fn lemma_duty_in_range(speed: int)
    ensures
        MIN_DUTY_CYCLE <= duty(speed) <= MAX_DUTY_CYCLE,
{
}

/// Speed zero maps to the brake midpoint, and the nominal extremes map to the
/// exact ends of the duty cycle range.
pub proof fn lemma_duty_landmarks()
    ensures
        duty(0) == BRAKE_DUTY_CYCLE,
        duty(100) == MAX_DUTY_CYCLE,
        duty(-100) == MIN_DUTY_CYCLE,
{
}

/// The transfer function never decreases as the speed grows.
pub proof fn lemma_duty_monotonic(a: int, b: int)
    requires
        a <= b,
    ensures
        duty(a) <= duty(b),
{
    assert(a * 10000 <= b * 10000) by (nonlinear_arith)
        requires a <= b;
}

/// The left wheel at `speed` gets the duty cycle of the right wheel at the
/// opposite speed.
pub proof fn lemma_wheel_symmetry(speed: int)
    ensures
        left_duty(speed) == right_duty(-speed),
{
}

} // verus!
