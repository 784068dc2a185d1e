use vstd::prelude::*;

use crate::duty::BRAKE_DUTY_CYCLE;
use crate::error::{RoverError, Stage};
use crate::plan::{
    construct_plan, create_plan, enable_plan, export_plan, failure_stage, left_speed_plan, reset_plan, right_speed_plan,
    speed_plan, stop_plan, unexport_plan, Step, Trace, Wheel,
};

verus! {

/// `t` is what running `plan` handed to the channels, with `r` its result.
/// The steps run in order. A failure ends the run at once, unless it falls
/// in the tolerant range `from..to`: there the run goes on to the end of the
/// range, and then stops. The error returned is that of the first failure.
pub open spec fn ran(plan: Seq<Step>, from: int, to: int, t: Trace, r: Result<(), RoverError>) -> bool {
    &&& t.len() <= plan.len()
    &&& forall|j: int| 0 <= j < t.len() ==> (#[trigger] t[j]).0 == plan[j]
    &&& (r is Ok <==> (t.len() == plan.len() && forall|j: int| 0 <= j < t.len() ==> (#[trigger] t[j]).1))
    &&& r matches Err(e) ==> exists|f: int|
        0 <= f < t.len() && !(#[trigger] t[f]).1 && (forall|j: int| 0 <= j < f ==> (#[trigger] t[j]).1)
            && e.stage == failure_stage(plan[f]) && t.len() == (if from <= f < to { to } else { f + 1 })
}

/// `after` is `before` followed by a run of `plan` (see `ran`).
pub open spec fn appended(
    before: Trace,
    after: Trace,
    plan: Seq<Step>,
    from: int,
    to: int,
    r: Result<(), RoverError>,
) -> bool {
    &&& before.len() <= after.len()
    &&& after.subrange(0, before.len() as int) == before
    &&& ran(plan, from, to, after.subrange(before.len() as int, after.len() as int), r)
}

/// The duty cycle last written with success to `wheel` in `t`, if any.
pub open spec fn written_duty(t: Trace, wheel: Wheel) -> Option<u32>
    decreases t.len(),
{
    if t.len() == 0 {
        None
    } else {
        match t.last() {
            (Step::SetDuty(w, d), true) if w == wheel => Some(d),
            _ => written_duty(t.drop_last(), wheel),
        }
    }
}

/// A two-wheeled rover: one PWM channel per wheel, on the same chip.
pub struct Rover {
    left: sysfs_pwm::Pwm,
    right: sysfs_pwm::Pwm,
    chip: u32,
    left_pin: u32,
    right_pin: u32,
    trace: Ghost<Trace>,
}

impl Rover {
    /// Every step this rover has handed to its channels, with its outcome.
    pub closed spec fn trace(&self) -> Trace {
        self.trace@
    }

    /// The chip and the left and right channel numbers.
    pub closed spec fn ids(&self) -> (u32, u32, u32) {
        (self.chip, self.left_pin, self.right_pin)
    }

    /// The chip and the left and right channel numbers.
    pub fn channels(&self) -> (r: (u32, u32, u32))
        ensures
            r == self.ids(),
    {
        (self.chip, self.left_pin, self.right_pin)
    }

    /// Names both channels, left first, without touching them; the record
    /// holds the naming steps made and their outcomes.
    fn open(chip: u32, left_pin: u32, right_pin: u32) -> (r: Result<Rover, RoverError>)
        ensures
            r matches Ok(v) ==> v.ids() == (chip, left_pin, right_pin) && ran(
                create_plan(),
                0,
                0,
                v.trace(),
                Ok(()),
            ),
            r matches Err(e) ==> ran(create_plan(), 0, 0, e.attempts(), Err(e)),
    {
        let left = match sysfs_pwm::Pwm::new(chip, left_pin) {
            Ok(p) => p,
            Err(e) => {
                let ghost t = seq![(Step::Create(Wheel::Left), false)];
                let e = RoverError::from_channel(Stage::Create(Wheel::Left), e).with_attempts(
                    Ghost(t),
                );
                assert(!t[0].1 && e.stage == failure_stage(create_plan()[0]));
                return Err(e);
            },
        };
        let right = match sysfs_pwm::Pwm::new(chip, right_pin) {
            Ok(p) => p,
            Err(e) => {
                let ghost t = seq![(Step::Create(Wheel::Left), true), (Step::Create(Wheel::Right), false)];
                let e = RoverError::from_channel(Stage::Create(Wheel::Right), e).with_attempts(
                    Ghost(t),
                );
                assert(t[0].0 == create_plan()[0] && t[1].0 == create_plan()[1]);
                assert(t[0].1 && !t[1].1 && e.stage == failure_stage(create_plan()[1]));
                return Err(e);
            },
        };
        let ghost t = seq![(Step::Create(Wheel::Left), true), (Step::Create(Wheel::Right), true)];
        assert(t[0].0 == create_plan()[0] && t[1].0 == create_plan()[1] && t[0].1 && t[1].1);
        Ok(Rover { left, right, chip, left_pin, right_pin, trace: Ghost(t) })
    }

    /// Creates a rover on `chip`: names both channels, then exports both and
    /// sets their period, stopping at the first failure. Nothing else is
    /// asked of the channels: the wheels are neither enabled nor disabled,
    /// and what was exported before a failure stays exported. A failure
    /// carries the steps that were made.
    pub fn new(chip: u32, left_pin: u32, right_pin: u32) -> (r: Result<Rover, RoverError>)
        ensures
            r matches Ok(v) ==> v.ids() == (chip, left_pin, right_pin) && ran(
                construct_plan(),
                0,
                0,
                v.trace(),
                Ok(()),
            ),
            r matches Err(e) ==> ran(construct_plan(), 0, 0, e.attempts(), Err(e)),
    {
        let mut rover = match Rover::open(chip, left_pin, right_pin) {
            Ok(v) => v,
            Err(e) => {
                proof {
                    lemma_ran_failed_early(create_plan(), export_plan(), 0, 0, e.attempts(), Err(e));
                }
                return Err(e);
            },
        };
        let ghost t0 = rover.trace();
        let r = rover.export();
        let ghost t1 = rover.trace();
        proof {
            lemma_appended_fresh(t0, create_plan(), 0, 0, Ok(()));
            lemma_appended_then(create_plan(), export_plan(), 0, 0, Seq::empty(), t0, t1, r);
            lemma_appended_fresh(t1, construct_plan(), 2, 2, r);
            lemma_ran_retolerate(construct_plan(), 2, 2, 0, 0, t1, r);
        }
        match r {
            Ok(()) => Ok(rover),
            Err(e) => Err(e.with_attempts(Ghost(t1))),
        }
    }

    fn rename(&mut self, wheel: Wheel) -> (r: Result<(), sysfs_pwm::Error>)
        ensures
            final(self).ids() == old(self).ids(),
            final(self).trace() == old(self).trace(),
    {
        match wheel {
            Wheel::Left => match sysfs_pwm::Pwm::new(self.chip, self.left_pin) {
                Ok(p) => {
                    self.left = p;
                    Ok(())
                },
                Err(e) => Err(e),
            },
            Wheel::Right => match sysfs_pwm::Pwm::new(self.chip, self.right_pin) {
                Ok(p) => {
                    self.right = p;
                    Ok(())
                },
                Err(e) => Err(e),
            },
        }
    }

    fn channel(&self, wheel: Wheel) -> &sysfs_pwm::Pwm {
        match wheel {
            Wheel::Left => &self.left,
            Wheel::Right => &self.right,
        }
    }

    /// Performs one step on the channel of its wheel and records it; a
    /// failure is reported at the step's stage. Naming a channel again
    /// replaces its handle with a fresh one for the same chip and number.
    pub(crate) fn perform(&mut self, step: Step) -> (r: Result<(), RoverError>)
        ensures
            final(self).ids() == old(self).ids(),
            final(self).trace() == old(self).trace().push((step, r is Ok)),
            r matches Err(e) ==> e.stage == failure_stage(step),
    {
        let outcome = match step {
            Step::Create(w) => self.rename(w),
            Step::Export(w) => self.channel(w).export(),
            Step::Unexport(w) => self.channel(w).unexport(),
            Step::SetPeriod(w, ns) => self.channel(w).set_period_ns(ns),
            Step::SetDuty(w, ns) => self.channel(w).set_duty_cycle_ns(ns),
            Step::Enable(w, on) => self.channel(w).enable(on),
        };
        let r = match outcome {
            Ok(()) => Ok(()),
            Err(e) => Err(RoverError::from_channel(step.failure_stage(), e)),
        };
        self.trace = Ghost(self.trace@.push((step, r is Ok)));
        r
    }

    /// Performs `steps` in order. A failure stops the run at once, unless it
    /// falls in `from..to`: then the steps up to `to` are still performed
    /// before the run stops. The first failure is returned; nothing done is
    /// undone.
    pub(crate) fn run(&mut self, steps: &Vec<Step>, from: usize, to: usize) -> (r: Result<(), RoverError>)
        requires
            from <= to <= steps@.len(),
        ensures
            final(self).ids() == old(self).ids(),
            appended(old(self).trace(), final(self).trace(), steps@, from as int, to as int, r),
    {
        let ghost start = self.trace@;
        let ghost n = start.len() as int;
        let ghost mut f: int = 0;
        let mut pending: Option<RoverError> = None;
        let mut i: usize = 0;
        while i < steps.len()
            invariant
                i <= steps@.len(),
                from <= to <= steps@.len(),
                n == start.len(),
                start == old(self).trace(),
                self.ids() == old(self).ids(),
                self.trace@.len() == n + i,
                self.trace@.subrange(0, n) == start,
                forall|j: int| 0 <= j < i ==> (#[trigger] self.trace@[n + j]).0 == steps@[j],
                pending is None ==> forall|j: int| 0 <= j < i ==> (#[trigger] self.trace@[n + j]).1,
                pending matches Some(e) ==> 0 <= from <= f < i < to && !self.trace@[n + f].1 && (
                forall|j: int| 0 <= j < f ==> (#[trigger] self.trace@[n + j]).1) && e.stage
                    == failure_stage(steps@[f]),
            decreases steps@.len() - i,
        {
            let ghost before = self.trace@;
            let o = self.perform(steps[i]);
            proof {
                let x = (steps@[i as int], o is Ok);
                assert(self.trace() == before.push(x));
                assert forall|k: int| 0 <= k < n + i implies #[trigger] self.trace@[k] == before[k] by {
                    assert(before.push(x)[k] == before[k]);
                }
                assert(self.trace@.subrange(0, n) =~= before.subrange(0, n));
            }
            match o {
                Ok(()) => {},
                Err(e) => {
                    if pending.is_none() {
                        proof {
                            f = i as int;
                        }
                        pending = Some(e);
                    }
                },
            }
            i = i + 1;
            if pending.is_some() && (i <= from || i >= to) {
                let ghost t = self.trace@.subrange(n, self.trace@.len() as int);
                proof {
                    assert forall|j: int| 0 <= j < t.len() implies (#[trigger] t[j]).0 == steps@[j] by {
                        assert(t[j] == self.trace@[n + j]);
                    }
                    assert(t[f] == self.trace@[n + f]);
                    assert forall|j: int| 0 <= j < f implies (#[trigger] t[j]).1 by {
                        assert(t[j] == self.trace@[n + j]);
                    }
                }
                return match pending {
                    Some(e) => Err(e),
                    None => Ok(()),
                };
            }
        }
        let ghost t = self.trace@.subrange(n, self.trace@.len() as int);
        proof {
            assert forall|j: int| 0 <= j < t.len() implies (#[trigger] t[j]).0 == steps@[j] && t[j].1 by {
                assert(t[j] == self.trace@[n + j]);
            }
        }
        Ok(())
    }

    /// Re-establishes the exported state of both channels and their period,
    /// stopping at the first failure. Exporting a channel that is already
    /// exported changes nothing.
    pub fn export(&mut self) -> (r: Result<(), RoverError>)
        ensures
            final(self).ids() == old(self).ids(),
            appended(old(self).trace(), final(self).trace(), export_plan(), 0, 0, r),
    {
        self.run(&Step::export_steps(), 0, 0)
    }

    /// Enables or disables both wheels, left first. A disabled wheel keeps its
    /// duty cycle. Should the right wheel fail after the left one succeeded,
    /// the two are left in different states and the right one's failure is
    /// returned.
    pub fn enable(&mut self, enabled: bool) -> (r: Result<(), RoverError>)
        ensures
            final(self).ids() == old(self).ids(),
            appended(old(self).trace(), final(self).trace(), enable_plan(enabled), 0, 0, r),
    {
        self.run(&Step::enable_steps(enabled), 0, 0)
    }

    /// Sets the speed of the left wheel, clamped to -100 (full reverse) to
    /// 100 (full forward).
    pub fn set_left_speed(&mut self, speed: i8) -> (r: Result<(), RoverError>)
        ensures
            final(self).ids() == old(self).ids(),
            appended(old(self).trace(), final(self).trace(), left_speed_plan(speed as int), 0, 0, r),
    {
        self.run(&Step::left_speed_steps(speed), 0, 0)
    }

    /// Sets the speed of the right wheel, clamped to -100 (full reverse) to
    /// 100 (full forward).
    pub fn set_right_speed(&mut self, speed: i8) -> (r: Result<(), RoverError>)
        ensures
            final(self).ids() == old(self).ids(),
            appended(old(self).trace(), final(self).trace(), right_speed_plan(speed as int), 0, 0, r),
    {
        self.run(&Step::right_speed_steps(speed), 0, 0)
    }

    /// Sets the speeds of both wheels, left first; a failure of the right
    /// wheel leaves the left one at its new speed.
    pub fn set_speed(&mut self, left: i8, right: i8) -> (r: Result<(), RoverError>)
        ensures
            final(self).ids() == old(self).ids(),
            appended(
                old(self).trace(),
                final(self).trace(),
                speed_plan(left as int, right as int),
                0,
                0,
                r,
            ),
    {
        self.run(&Step::speed_steps(left, right), 0, 0)
    }

    /// Brakes both wheels, exactly as setting both speeds to 0 does. The
    /// enabled state is left as it was.
    pub fn stop(&mut self) -> (r: Result<(), RoverError>)
        ensures
            final(self).ids() == old(self).ids(),
            appended(old(self).trace(), final(self).trace(), stop_plan(), 0, 0, r),
    {
        self.run(&Step::stop_steps(), 0, 0)
    }

    /// Disables and then unexports both channels, releasing the rover. Every
    /// step is attempted, whatever became of the earlier ones; the first
    /// failure is returned, with the rover's whole trace since it is gone.
    pub fn unexport(self) -> (r: (Result<(), RoverError>, Ghost<Trace>))
        ensures
            appended(self.trace(), r.1@, unexport_plan(), 0, 4, r.0),
    {
        let mut rover = self;
        let r = rover.run(&Step::unexport_steps(), 0, 4);
        (r, Ghost(rover.trace@))
    }

    /// Brings the channels from whatever state they were left in to exported,
    /// braking and enabled: export, disable, unexport, export, stop, enable.
    /// The unexport phase attempts all of its steps; any other failure stops
    /// the reset at once.
    pub fn reset(&mut self) -> (r: Result<(), RoverError>)
        ensures
            final(self).ids() == old(self).ids(),
            appended(old(self).trace(), final(self).trace(), reset_plan(), 6, 10, r),
    {
        self.run(&Step::reset_steps(), 6, 10)
    }
}

/// A run of one plan that succeeded, followed by a run of another, is a run
/// of the two plans joined.
pub proof fn lemma_ran_then(
    a: Seq<Step>,
    b: Seq<Step>,
    from: int,
    to: int,
    ta: Trace,
    tb: Trace,
    r: Result<(), RoverError>,
)
    requires
        ran(a, 0, 0, ta, Ok(())),
        ran(b, from, to, tb, r),
    ensures
        ran(a + b, a.len() + from, a.len() + to, ta + tb, r),
{
    let p = a + b;
    let t = ta + tb;
    assert forall|j: int| 0 <= j < t.len() implies (#[trigger] t[j]).0 == p[j] by {
        if j < ta.len() {
            assert(t[j] == ta[j]);
        } else {
            assert(t[j] == tb[j - ta.len()]);
        }
    }
    if r is Ok {
        assert forall|j: int| 0 <= j < t.len() implies (#[trigger] t[j]).1 by {
            if j < ta.len() {
                assert(t[j] == ta[j]);
            } else {
                assert(t[j] == tb[j - ta.len()]);
            }
        }
    } else {
        let f = choose|f: int|
            0 <= f < tb.len() && !(#[trigger] tb[f]).1 && (forall|j: int| 0 <= j < f ==> (#[trigger] tb[j]).1)
                && r->Err_0.stage == failure_stage(b[f]) && tb.len() == (if from <= f < to { to } else { f + 1 });
        let g = a.len() + f;
        assert(t[g] == tb[f]);
        assert(p[g] == b[f]);
        assert forall|j: int| 0 <= j < g implies (#[trigger] t[j]).1 by {
            if j < ta.len() {
                assert(t[j] == ta[j]);
            } else {
                assert(t[j] == tb[j - ta.len()]);
            }
        }
    }
}

/// A run of a plan that failed is a run of that plan followed by any other,
/// as long as the failure falls before the tolerant range.
pub proof fn lemma_ran_failed_early(
    a: Seq<Step>,
    b: Seq<Step>,
    from: int,
    to: int,
    t: Trace,
    r: Result<(), RoverError>,
)
    requires
        ran(a, 0, 0, t, r),
        r is Err,
        a.len() <= from || from == to,
    ensures
        ran(a + b, from, to, t, r),
{
    let p = a + b;
    assert forall|j: int| 0 <= j < t.len() implies (#[trigger] t[j]).0 == p[j] by {}
    let f = choose|f: int|
        0 <= f < t.len() && !(#[trigger] t[f]).1 && (forall|j: int| 0 <= j < f ==> (#[trigger] t[j]).1)
            && r->Err_0.stage == failure_stage(a[f]) && t.len() == f + 1;
    assert(p[f] == a[f]);
}

/// Where the tolerant range is empty, where it starts does not matter.
pub proof fn lemma_ran_retolerate(
    p: Seq<Step>,
    from: int,
    to: int,
    from2: int,
    to2: int,
    t: Trace,
    r: Result<(), RoverError>,
)
    requires
        ran(p, from, to, t, r),
        from == to,
        from2 == to2,
    ensures
        ran(p, from2, to2, t, r),
{
    if r is Err {
        let f = choose|f: int|
            0 <= f < t.len() && !(#[trigger] t[f]).1 && (forall|j: int| 0 <= j < f ==> (#[trigger] t[j]).1)
                && r->Err_0.stage == failure_stage(p[f]) && t.len() == (if from <= f < to { to } else { f + 1 });
    }
}

/// A run appended to a trace is a run of its own.
pub proof fn lemma_appended_fresh(t: Trace, p: Seq<Step>, from: int, to: int, r: Result<(), RoverError>)
    ensures
        appended(Seq::empty(), t, p, from, to, r) <==> ran(p, from, to, t, r),
{
    assert(t.subrange(0, 0) =~= Seq::<(Step, bool)>::empty());
    assert(t.subrange(0, t.len() as int) =~= t);
}

/// Two runs appended one after the other, the first of them successful, are
/// one run of the two plans joined.
pub proof fn lemma_appended_then(
    a: Seq<Step>,
    b: Seq<Step>,
    from: int,
    to: int,
    x: Trace,
    y: Trace,
    z: Trace,
    r: Result<(), RoverError>,
)
    requires
        appended(x, y, a, 0, 0, Ok(())),
        appended(y, z, b, from, to, r),
    ensures
        appended(x, z, a + b, a.len() + from, a.len() + to, r),
{
    let ta = y.subrange(x.len() as int, y.len() as int);
    let tb = z.subrange(y.len() as int, z.len() as int);
    lemma_ran_then(a, b, from, to, ta, tb, r);
    assert(z.subrange(0, x.len() as int) =~= x) by {
        assert forall|k: int| 0 <= k < x.len() implies z[k] == x[k] by {
            assert(z.subrange(0, y.len() as int)[k] == z[k]);
            assert(y.subrange(0, x.len() as int)[k] == y[k]);
        }
    }
    assert(z.subrange(x.len() as int, z.len() as int) =~= ta + tb) by {
        assert forall|k: int| x.len() <= k < y.len() implies z[k] == y[k] by {
            assert(z.subrange(0, y.len() as int)[k] == z[k]);
        }
    }
}

/// An appended run that failed early is an appended run of its plan joined
/// to any other.
pub proof fn lemma_appended_failed_early(
    a: Seq<Step>,
    b: Seq<Step>,
    from: int,
    to: int,
    x: Trace,
    y: Trace,
    r: Result<(), RoverError>,
)
    requires
        appended(x, y, a, 0, 0, r),
        r is Err,
        a.len() <= from || from == to,
    ensures
        appended(x, y, a + b, from, to, r),
{
    lemma_ran_failed_early(a, b, from, to, y.subrange(x.len() as int, y.len() as int), r);
}

/// Reading both wheels' duty cycle after a successful stop gives the brake
/// midpoint on both.
pub proof fn lemma_stop_brakes(t: Trace)
    requires
        ran(stop_plan(), 0, 0, t, Ok(())),
    ensures
        written_duty(t, Wheel::Left) == Some(BRAKE_DUTY_CYCLE),
        written_duty(t, Wheel::Right) == Some(BRAKE_DUTY_CYCLE),
{
    crate::duty::lemma_duty_landmarks();
    assert(t[0].1 && t[1].1);
    assert(t.drop_last() =~= seq![t[0]]);
    assert(t.drop_last().drop_last() =~= Seq::<(Step, bool)>::empty());
    reveal_with_fuel(written_duty, 3);
}

/// Releasing the rover attempts every one of its steps, so the right channel
/// is unexported even when disabling the left one failed.
pub proof fn lemma_unexport_attempts_all(t: Trace, r: Result<(), RoverError>)
    requires
        ran(unexport_plan(), 0, 4, t, r),
    ensures
        t.len() == 4,
        t[0].0 == Step::Enable(Wheel::Left, false),
        t[3].0 == Step::Unexport(Wheel::Right),
{
    if r is Err {
        let f = choose|f: int|
            0 <= f < t.len() && !(#[trigger] t[f]).1 && (forall|j: int| 0 <= j < f ==> (#[trigger] t[j]).1)
                && r->Err_0.stage == failure_stage(unexport_plan()[f]) && t.len() == (if 0 <= f < 4 { 4 } else { f + 1 });
    }
}

} // verus!
