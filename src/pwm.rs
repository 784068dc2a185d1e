//! The PWM channels of the `sysfs_pwm` crate, as the library may use them.
//!
//! Every operation touches the kernel's sysfs tree, so none of them promises
//! success: callers are verified for whichever outcome comes back.
use vstd::prelude::*;

verus! {

/// A PWM channel addressed by chip and channel number.
#[verifier::external_type_specification]
#[verifier::external_body]
pub struct ExPwm(sysfs_pwm::Pwm);

/// The error of every channel operation: an I/O failure or unexpected file
/// contents.
#[verifier::external_type_specification]
#[verifier::external_body]
pub struct ExPwmError(sysfs_pwm::Error);

/// Relies on sysfs_pwm::Pwm::new: checks that the chip exists and names the
/// channel, without exporting it.
pub assume_specification[ sysfs_pwm::Pwm::new ](chip: u32, number: u32) -> (r: Result<
    sysfs_pwm::Pwm,
    sysfs_pwm::Error,
>);

/// Relies on sysfs_pwm::Pwm::export: exports the channel unless it already is.
pub assume_specification[ sysfs_pwm::Pwm::export ](pwm: &sysfs_pwm::Pwm) -> (r: Result<
    (),
    sysfs_pwm::Error,
>);

/// Relies on sysfs_pwm::Pwm::unexport: unexports the channel if it is exported.
pub assume_specification[ sysfs_pwm::Pwm::unexport ](pwm: &sysfs_pwm::Pwm) -> (r: Result<
    (),
    sysfs_pwm::Error,
>);

/// Relies on sysfs_pwm::Pwm::enable: writes the channel's enable flag.
pub assume_specification[ sysfs_pwm::Pwm::enable ](pwm: &sysfs_pwm::Pwm, enable: bool) -> (r:
    Result<(), sysfs_pwm::Error>);

/// Relies on sysfs_pwm::Pwm::set_duty_cycle_ns: writes the channel's duty cycle.
pub assume_specification[ sysfs_pwm::Pwm::set_duty_cycle_ns ](
    pwm: &sysfs_pwm::Pwm,
    duty_cycle_ns: u32,
) -> (r: Result<(), sysfs_pwm::Error>);

/// Relies on sysfs_pwm::Pwm::set_period_ns: writes the channel's period.
pub assume_specification[ sysfs_pwm::Pwm::set_period_ns ](
    pwm: &sysfs_pwm::Pwm,
    period_ns: u32,
) -> (r: Result<(), sysfs_pwm::Error>);

} // verus!
