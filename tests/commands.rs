use rpizw_rover::{execute, reset_rover, run_cli, CliCommand, Command, Rover, Stage, Wheel};

#[test]
fn speed_right_defaults_to_left() {
    assert_eq!(
        CliCommand::speed(-20, None, false),
        CliCommand::Speed { left: -20, right: -20, enable: true }
    );
    assert_eq!(
        CliCommand::speed(30, Some(-40), true),
        CliCommand::Speed { left: 30, right: -40, enable: false }
    );
}

// This machine has no PWM chip: every command fails where the rover is
// constructed, before any channel is touched.
#[test]
fn rover_without_chip_fails_to_create_left_wheel() {
    match Rover::new(0, 0, 1) {
        Ok(_) => panic!("constructed a rover without a pwm chip"),
        Err(e) => {
            assert_eq!(e.stage, Stage::Create(Wheel::Left));
            assert_eq!(e.message(), "failed to create left wheel");
            assert!(!e.cause.is_empty());
        }
    }
}

#[test]
fn commands_without_chip_report_creation_failure() {
    assert_eq!(reset_rover().0.unwrap_err().stage, Stage::Create(Wheel::Left));
    assert_eq!(execute(Command::Enable).0.unwrap_err().stage, Stage::Create(Wheel::Left));
    assert_eq!(run_cli(CliCommand::Unexport).0.unwrap_err().stage, Stage::Create(Wheel::Left));
}
