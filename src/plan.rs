use vstd::prelude::*;

use crate::duty::{
    left_duty, left_duty_cycle, right_duty, right_duty_cycle, BRAKE_DUTY_CYCLE, PERIOD,
};
use crate::error::Stage;

verus! {

/// One of the rover's two wheels.
#[derive(Clone, Copy, Debug, PartialEq, Eq, Structural)]
pub enum Wheel {
    Left,
    Right,
}

/// One operation on the PWM channel of a wheel.
#[derive(Clone, Copy, Debug, PartialEq, Eq, Structural)]
pub enum Step {
    /// Name the wheel's channel on the rover's chip, without touching it.
    Create(Wheel),
    Export(Wheel),
    Unexport(Wheel),
    SetPeriod(Wheel, u32),
    SetDuty(Wheel, u32),
    Enable(Wheel, bool),
}

/// The stage that a failure of `step` is reported as.
pub open spec fn failure_stage(step: Step) -> Stage {
    match step {
        Step::Create(w) => Stage::Create(w),
        Step::Export(w) => Stage::Export(w),
        Step::Unexport(w) => Stage::Unexport(w),
        Step::SetPeriod(w, _) => Stage::Period(w),
        Step::SetDuty(w, _) => Stage::Duty(w),
        Step::Enable(w, on) => if on {
            Stage::Enable(w)
        } else {
            Stage::Disable(w)
        },
    }
}

/// What the channels were asked to do, in order: each step handed to a
/// channel, with whether the channel reported success.
pub type Trace = Seq<(Step, bool)>;

/// Name both channels, left first.
pub open spec fn create_plan() -> Seq<Step> {
    seq![Step::Create(Wheel::Left), Step::Create(Wheel::Right)]
}

/// Construction: name both channels, export both and give both the fixed
/// period.
pub open spec fn construct_plan() -> Seq<Step> {
    create_plan() + export_plan()
}

/// Export both channels and give both the fixed period.
pub open spec fn export_plan() -> Seq<Step> {
    seq![
        Step::Export(Wheel::Left),
        Step::Export(Wheel::Right),
        Step::SetPeriod(Wheel::Left, PERIOD),
        Step::SetPeriod(Wheel::Right, PERIOD),
    ]
}

/// Switch both channels on or off, left first.
pub open spec fn enable_plan(on: bool) -> Seq<Step> {
    seq![Step::Enable(Wheel::Left, on), Step::Enable(Wheel::Right, on)]
}

/// Write the duty cycles for a pair of wheel speeds, left first.
pub open spec fn speed_plan(left: int, right: int) -> Seq<Step> {
    seq![
        Step::SetDuty(Wheel::Left, left_duty(left) as u32),
        Step::SetDuty(Wheel::Right, right_duty(right) as u32),
    ]
}

/// Write the duty cycle for `speed` to the left wheel alone.
pub open spec fn left_speed_plan(speed: int) -> Seq<Step> {
    seq![Step::SetDuty(Wheel::Left, left_duty(speed) as u32)]
}

/// Write the duty cycle for `speed` to the right wheel alone.
pub open spec fn right_speed_plan(speed: int) -> Seq<Step> {
    seq![Step::SetDuty(Wheel::Right, right_duty(speed) as u32)]
}

/// Command the brake on both wheels.
pub open spec fn stop_plan() -> Seq<Step> {
    speed_plan(0, 0)
}

/// Switch both channels off, then unexport both.
pub open spec fn unexport_plan() -> Seq<Step> {
    enable_plan(false) + seq![Step::Unexport(Wheel::Left), Step::Unexport(Wheel::Right)]
}

/// The full reset: every operation, in order, that brings the channels from
/// any leftover state to exported, braking and enabled.
pub open spec fn reset_plan() -> Seq<Step> {
    seq![
        Step::Export(Wheel::Left),
        Step::Export(Wheel::Right),
        Step::SetPeriod(Wheel::Left, PERIOD),
        Step::SetPeriod(Wheel::Right, PERIOD),
        Step::Enable(Wheel::Left, false),
        Step::Enable(Wheel::Right, false),
        Step::Enable(Wheel::Left, false),
        Step::Enable(Wheel::Right, false),
        Step::Unexport(Wheel::Left),
        Step::Unexport(Wheel::Right),
        Step::Export(Wheel::Left),
        Step::Export(Wheel::Right),
        Step::SetPeriod(Wheel::Left, PERIOD),
        Step::SetPeriod(Wheel::Right, PERIOD),
        Step::SetDuty(Wheel::Left, BRAKE_DUTY_CYCLE),
        Step::SetDuty(Wheel::Right, BRAKE_DUTY_CYCLE),
        Step::Enable(Wheel::Left, true),
        Step::Enable(Wheel::Right, true),
    ]
}

impl Step {
    /// The stage that a failure of this step is reported as.
    pub fn failure_stage(&self) -> (r: Stage)
        ensures
            r == failure_stage(*self),
    {
        match *self {
            Step::Create(w) => Stage::Create(w),
            Step::Export(w) => Stage::Export(w),
            Step::Unexport(w) => Stage::Unexport(w),
            Step::SetPeriod(w, _) => Stage::Period(w),
            Step::SetDuty(w, _) => Stage::Duty(w),
            Step::Enable(w, on) => if on {
                Stage::Enable(w)
            } else {
                Stage::Disable(w)
            },
        }
    }

    /// The steps that export both channels and set their period.
    pub fn export_steps() -> (r: Vec<Step>)
        ensures
            r@ == export_plan(),
    {
        let r = vec![
            Step::Export(Wheel::Left),
            Step::Export(Wheel::Right),
            Step::SetPeriod(Wheel::Left, PERIOD),
            Step::SetPeriod(Wheel::Right, PERIOD),
        ];
        assert(r@ == export_plan());
        r
    }

    /// The steps that switch both channels on or off.
    pub fn enable_steps(on: bool) -> (r: Vec<Step>)
        ensures
            r@ == enable_plan(on),
    {
        let r = vec![Step::Enable(Wheel::Left, on), Step::Enable(Wheel::Right, on)];
        assert(r@ == enable_plan(on));
        r
    }

    /// The steps that drive the wheels at the given speeds.
    pub fn speed_steps(left: i8, right: i8) -> (r: Vec<Step>)
        ensures
            r@ == speed_plan(left as int, right as int),
    {
        let r = vec![
            Step::SetDuty(Wheel::Left, left_duty_cycle(left)),
            Step::SetDuty(Wheel::Right, right_duty_cycle(right)),
        ];
        assert(r@ == speed_plan(left as int, right as int));
        r
    }

    /// The step that drives the left wheel at `speed`.
    pub fn left_speed_steps(speed: i8) -> (r: Vec<Step>)
        ensures
            r@ == left_speed_plan(speed as int),
    {
        let r = vec![Step::SetDuty(Wheel::Left, left_duty_cycle(speed))];
        assert(r@ == left_speed_plan(speed as int));
        r
    }

    /// The step that drives the right wheel at `speed`.
    pub fn right_speed_steps(speed: i8) -> (r: Vec<Step>)
        ensures
            r@ == right_speed_plan(speed as int),
    {
        let r = vec![Step::SetDuty(Wheel::Right, right_duty_cycle(speed))];
        assert(r@ == right_speed_plan(speed as int));
        r
    }

    /// The steps that brake both wheels.
    pub fn stop_steps() -> (r: Vec<Step>)
        ensures
            r@ == stop_plan(),
    {
        Step::speed_steps(0, 0)
    }

    /// The steps that switch both channels off and release them.
    pub fn unexport_steps() -> (r: Vec<Step>)
        ensures
            r@ == unexport_plan(),
    {
        let mut r = Step::enable_steps(false);
        r.push(Step::Unexport(Wheel::Left));
        r.push(Step::Unexport(Wheel::Right));
        assert(r@ == unexport_plan());
        r
    }

    /// The steps of the full reset, in order.
    pub fn reset_steps() -> (r: Vec<Step>)
        ensures
            r@ == reset_plan(),
    {
        let mut r = Step::export_steps();
        let mut phase = Step::enable_steps(false);
        r.append(&mut phase);
        let mut phase = Step::unexport_steps();
        r.append(&mut phase);
        let mut phase = Step::export_steps();
        r.append(&mut phase);
        let mut phase = Step::stop_steps();
        r.append(&mut phase);
        let mut phase = Step::enable_steps(true);
        r.append(&mut phase);
        proof {
            lemma_reset_phases();
        }
        r
    }
}

/// The reset runs, in this order: export, disable, unexport, export, stop,
/// enable.
pub proof fn lemma_reset_phases()
    ensures
        reset_plan() == export_plan() + enable_plan(false) + unexport_plan() + export_plan()
            + stop_plan() + enable_plan(true),
{
    assert(left_duty(0) == BRAKE_DUTY_CYCLE && right_duty(0) == BRAKE_DUTY_CYCLE);
    assert(reset_plan() =~= export_plan() + enable_plan(false) + unexport_plan()
        + export_plan() + stop_plan() + enable_plan(true));
}

/// The left wheel at `speed` is written the duty cycle that the right wheel
/// is written at the opposite speed.
pub proof fn lemma_speed_plans_mirror(speed: int)
    ensures
        left_speed_plan(speed)[0] == Step::SetDuty(Wheel::Left, right_duty(-speed) as u32),
        right_speed_plan(-speed)[0] == Step::SetDuty(Wheel::Right, right_duty(-speed) as u32),
{
    crate::duty::lemma_wheel_symmetry(speed);
}

} // verus!
