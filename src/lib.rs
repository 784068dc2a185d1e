//! Control of a two-wheeled rover whose wheels are driven by hardware PWM
//! channels: the speed to duty cycle transfer function, the plans of steps
//! that each rover command performs and their execution, and what the
//! command-line tool and the HTTP surface do with a request.

pub mod api;
pub mod cli;
pub mod duty;
pub mod error;
pub mod plan;
mod pwm;
pub mod rover;

pub use api::{
    execute, handle, invalid_json, reset_rover, respond, ApiResponse, Command, ResponsePayload,
    SpeedRequest, LEFT_PWM, PWM_CHIP, RIGHT_PWM, STATUS_BAD_REQUEST, STATUS_OK,
    STATUS_SERVER_ERROR,
};
pub use cli::{run_cli, CliCommand};
pub use duty::{
    left_duty_cycle, right_duty_cycle, speed_to_duty_cycle, BRAKE_DUTY_CYCLE, MAX_DUTY_CYCLE,
    MIN_DUTY_CYCLE, PERIOD,
};
pub use error::{RoverError, Stage};
pub use plan::{Step, Wheel};
pub use rover::Rover;
