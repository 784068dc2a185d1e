use rpizw_rover::{
    left_duty_cycle, right_duty_cycle, speed_to_duty_cycle, BRAKE_DUTY_CYCLE, MAX_DUTY_CYCLE,
    MIN_DUTY_CYCLE, PERIOD,
};

#[test]
fn duty_stays_in_hardware_range_for_every_i8() {
    for s in i8::MIN..=i8::MAX {
        let d = speed_to_duty_cycle(s);
        assert!(d >= 1_000_000 && d <= 2_000_000, "speed {} gave {}", s, d);
    }
}

#[test]
fn zero_speed_is_brake_midpoint() {
    assert_eq!(speed_to_duty_cycle(0), 1_500_000);
    assert_eq!(BRAKE_DUTY_CYCLE, 1_500_000);
}

#[test]
fn full_scale_reaches_exact_bounds() {
    assert_eq!(speed_to_duty_cycle(100), 2_000_000);
    assert_eq!(speed_to_duty_cycle(-100), 1_000_000);
    assert_eq!(MAX_DUTY_CYCLE, 2_000_000);
    assert_eq!(MIN_DUTY_CYCLE, 1_000_000);
}

#[test]
fn out_of_range_speeds_are_clamped() {
    assert_eq!(speed_to_duty_cycle(127), 2_000_000);
    assert_eq!(speed_to_duty_cycle(101), 2_000_000);
    assert_eq!(speed_to_duty_cycle(-101), 1_000_000);
    assert_eq!(speed_to_duty_cycle(-128), 1_000_000);
}

#[test]
fn intermediate_speeds_follow_the_formula() {
    assert_eq!(speed_to_duty_cycle(50), 1_750_000);
    assert_eq!(speed_to_duty_cycle(-50), 1_250_000);
    assert_eq!(speed_to_duty_cycle(1), 1_505_000);
    assert_eq!(speed_to_duty_cycle(-1), 1_495_000);
}

#[test]
fn duty_is_monotonic_in_speed() {
    let mut prev = speed_to_duty_cycle(i8::MIN);
    for s in (i8::MIN as i16 + 1)..=(i8::MAX as i16) {
        let d = speed_to_duty_cycle(s as i8);
        assert!(d >= prev, "duty fell at speed {}", s);
        prev = d;
    }
}

#[test]
fn left_wheel_mirrors_right_wheel() {
    for s in -127i8..=127 {
        assert_eq!(left_duty_cycle(s), right_duty_cycle(-s));
    }
    assert_eq!(left_duty_cycle(50), 1_250_000);
    assert_eq!(right_duty_cycle(50), 1_750_000);
    assert_eq!(left_duty_cycle(-128), 2_000_000);
}

#[test]
fn period_is_twenty_milliseconds() {
    assert_eq!(PERIOD, 20_000_000);
}
