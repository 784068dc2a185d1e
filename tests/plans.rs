use rpizw_rover::{RoverError, Stage, Step, Wheel, PERIOD};


#[test]
fn stop_brakes_both_wheels() {
    assert_eq!(
        Step::stop_steps(),
        vec![Step::SetDuty(Wheel::Left, 1_500_000), Step::SetDuty(Wheel::Right, 1_500_000)]
    );
}

#[test]
fn speed_steps_invert_the_left_wheel() {
    assert_eq!(
        Step::speed_steps(50, -50),
        vec![Step::SetDuty(Wheel::Left, 1_250_000), Step::SetDuty(Wheel::Right, 1_250_000)]
    );
    assert_eq!(
        Step::speed_steps(100, 100),
        vec![Step::SetDuty(Wheel::Left, 1_000_000), Step::SetDuty(Wheel::Right, 2_000_000)]
    );
}

#[test]
fn export_steps_export_then_set_period() {
    assert_eq!(
        Step::export_steps(),
        vec![
            Step::Export(Wheel::Left),
            Step::Export(Wheel::Right),
            Step::SetPeriod(Wheel::Left, PERIOD),
            Step::SetPeriod(Wheel::Right, PERIOD),
        ]
    );
}

#[test]
fn unexport_disables_then_releases_both() {
    assert_eq!(
        Step::unexport_steps(),
        vec![
            Step::Enable(Wheel::Left, false),
            Step::Enable(Wheel::Right, false),
            Step::Unexport(Wheel::Left),
            Step::Unexport(Wheel::Right),
        ]
    );
}

#[test]
fn reset_runs_phases_in_order() {
    let mut expected = Step::export_steps();
    expected.extend(Step::enable_steps(false));
    expected.extend(Step::unexport_steps());
    expected.extend(Step::export_steps());
    expected.extend(Step::stop_steps());
    expected.extend(Step::enable_steps(true));
    assert_eq!(Step::reset_steps(), expected);
    assert_eq!(Step::reset_steps().len(), 18);
    assert_eq!(Step::reset_steps()[17], Step::Enable(Wheel::Right, true));
}

#[test]
fn failure_stages_name_the_wheel_and_operation() {
    assert_eq!(Step::Create(Wheel::Right).failure_stage(), Stage::Create(Wheel::Right));
    assert_eq!(Step::Enable(Wheel::Left, false).failure_stage(), Stage::Disable(Wheel::Left));
    assert_eq!(Step::Enable(Wheel::Right, true).failure_stage(), Stage::Enable(Wheel::Right));
    assert_eq!(Step::SetDuty(Wheel::Right, 1).failure_stage(), Stage::Duty(Wheel::Right));
    assert_eq!(Step::Unexport(Wheel::Left).failure_stage(), Stage::Unexport(Wheel::Left));
    assert_eq!(
        Stage::Export(Wheel::Left).message(),
        "failed to export the left wheel pwm channel"
    );
    assert_eq!(Stage::Duty(Wheel::Right).message(), "failed to set duty on right wheel");
}

#[test]
fn single_wheel_steps_mirror_each_other() {
    assert_eq!(Step::left_speed_steps(30), vec![Step::SetDuty(Wheel::Left, 1_350_000)]);
    assert_eq!(Step::right_speed_steps(-30), vec![Step::SetDuty(Wheel::Right, 1_350_000)]);
    assert_eq!(Step::left_speed_steps(-128), vec![Step::SetDuty(Wheel::Left, 2_000_000)]);
    assert_eq!(Step::right_speed_steps(100), vec![Step::SetDuty(Wheel::Right, 2_000_000)]);
}

#[test]
fn constructed_error_keeps_stage_and_cause() {
    let e = RoverError::new(Stage::Disable(Wheel::Left), String::from("injected"));
    assert_eq!(e.stage, Stage::Disable(Wheel::Left));
    assert_eq!(e.cause, "injected");
    assert_eq!(e.message(), "failed to disable left wheel");
}
