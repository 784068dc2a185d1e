//! What each subcommand of the command-line tool does to the rover.
use vstd::prelude::*;

use crate::api::{LEFT_PWM, PWM_CHIP, RIGHT_PWM};
use crate::error::RoverError;
use crate::plan::{construct_plan, enable_plan, export_plan, speed_plan, stop_plan, unexport_plan, Step, Trace};
use crate::rover::{
    lemma_appended_failed_early, lemma_appended_fresh, lemma_appended_then, lemma_ran_retolerate,
    ran, Rover,
};

verus! {

/// A subcommand of the command-line tool.
#[derive(Clone, Copy, Debug, PartialEq, Eq, Structural)]
pub enum CliCommand {
    Enable,
    Disable,
    Stop,
    /// Set both speeds, then enable the rover unless `enable` is false.
    Speed { left: i8, right: i8, enable: bool },
    Unexport,
}

impl CliCommand {
    /// The `speed` subcommand: the right speed defaults to the left one, and
    /// the rover is enabled afterwards unless that is suppressed.
    pub fn speed(left: i8, right: Option<i8>, dont_enable: bool) -> (r: CliCommand)
        ensures
            r == (CliCommand::Speed {
                left,
                right: match right {
                    Some(v) => v,
                    None => left,
                },
                enable: !dont_enable,
            }),
    {
        let right = match right {
            Some(v) => v,
            None => left,
        };
        CliCommand::Speed { left, right, enable: !dont_enable }
    }
}

/// The hardware steps of `cmd`, once the rover is constructed and exported.
pub open spec fn cli_plan(cmd: CliCommand) -> Seq<Step> {
    match cmd {
        CliCommand::Enable => enable_plan(true),
        CliCommand::Disable => enable_plan(false),
        CliCommand::Stop => stop_plan(),
        CliCommand::Speed { left, right, enable } => if enable {
            speed_plan(left as int, right as int) + enable_plan(true)
        } else {
            speed_plan(left as int, right as int)
        },
        CliCommand::Unexport => enable_plan(false) + unexport_plan(),
    }
}

/// The steps of `cmd` whose failure does not stop the command at once.
pub open spec fn cli_tolerance(cmd: CliCommand) -> (int, int) {
    match cmd {
        CliCommand::Unexport => (2, 6),
        _ => (0, 0),
    }
}

/// Everything a subcommand asks of the channels: construction, the export
/// that re-establishes a known state, and the subcommand's own steps.
pub open spec fn cli_full_plan(cmd: CliCommand) -> Seq<Step> {
    construct_plan() + (export_plan() + cli_plan(cmd))
}

/// `t` is what running `cmd` asked of the channels, and `r` its result: the
/// full plan of `cmd` ran (see `ran`).
pub open spec fn cli_executed(cmd: CliCommand, t: Trace, r: Result<(), RoverError>) -> bool {
    ran(cli_full_plan(cmd), 10 + cli_tolerance(cmd).0, 10 + cli_tolerance(cmd).1, t, r)
}

/// Runs a subcommand on the rover's fixed channels: constructs the rover,
/// re-establishes its exported state, then performs the command. What was
/// asked of the channels is returned beside the result.
pub fn run_cli(cmd: CliCommand) -> (r: (Result<(), RoverError>, Ghost<Trace>))
    ensures
        cli_executed(cmd, r.1@, r.0),
{
    let ghost from = cli_tolerance(cmd).0;
    let ghost to = cli_tolerance(cmd).1;
    let ghost inner = export_plan() + cli_plan(cmd);
    let mut rover = match Rover::new(PWM_CHIP, LEFT_PWM, RIGHT_PWM) {
        Ok(rover) => rover,
        Err(e) => {
            let ghost a = e.attempts();
            proof {
                lemma_appended_fresh(a, construct_plan(), 0, 0, Err(e));
                lemma_appended_failed_early(construct_plan(), inner, 10 + from, 10 + to, Seq::empty(), a, Err(e));
                lemma_appended_fresh(a, cli_full_plan(cmd), 10 + from, 10 + to, Err(e));
            }
            return (Err(e), Ghost(a));
        },
    };
    let ghost t0 = rover.trace();
    proof {
        lemma_appended_fresh(t0, construct_plan(), 0, 0, Ok(()));
    }
    let r = rover.export();
    let ghost t1 = rover.trace();
    if r.is_err() {
        proof {
            lemma_appended_failed_early(export_plan(), cli_plan(cmd), 4 + from, 4 + to, t0, t1, r);
            lemma_appended_then(construct_plan(), inner, 4 + from, 4 + to, Seq::empty(), t0, t1, r);
            lemma_appended_fresh(t1, cli_full_plan(cmd), 10 + from, 10 + to, r);
        }
        return (r, Ghost(t1));
    }
    let (r, t) = match cmd {
        CliCommand::Enable => {
            let r = rover.enable(true);
            (r, Ghost(rover.trace()))
        },
        CliCommand::Disable => {
            let r = rover.enable(false);
            (r, Ghost(rover.trace()))
        },
        CliCommand::Stop => {
            let r = rover.stop();
            (r, Ghost(rover.trace()))
        },
        CliCommand::Speed { left, right, enable } => {
            let r = rover.set_speed(left, right);
            let ghost t2 = rover.trace();
            if r.is_err() || !enable {
                proof {
                    if enable {
                        lemma_appended_failed_early(speed_plan(left as int, right as int), enable_plan(true), 0, 0, t1, t2, r);
                    }
                }
                (r, Ghost(t2))
            } else {
                let r = rover.enable(true);
                proof {
                    lemma_appended_then(speed_plan(left as int, right as int), enable_plan(true), 0, 0, t1, t2, rover.trace(), r);
                    let tc = rover.trace().subrange(t1.len() as int, rover.trace().len() as int);
                    lemma_ran_retolerate(cli_plan(cmd), 2, 2, 0, 0, tc, r);
                }
                (r, Ghost(rover.trace()))
            }
        },
        CliCommand::Unexport => {
            let r = rover.enable(false);
            let ghost t2 = rover.trace();
            if r.is_err() {
                proof {
                    lemma_appended_failed_early(enable_plan(false), unexport_plan(), 2, 6, t1, t2, r);
                }
                (r, Ghost(t2))
            } else {
                let (r, t3) = rover.unexport();
                proof {
                    lemma_appended_then(enable_plan(false), unexport_plan(), 0, 4, t1, t2, t3@, r);
                }
                (r, t3)
            }
        },
    };
    proof {
        lemma_appended_then(export_plan(), cli_plan(cmd), from, to, t0, t1, t@, r);
        lemma_appended_then(construct_plan(), inner, 4 + from, 4 + to, Seq::empty(), t0, t@, r);
        lemma_appended_fresh(t@, cli_full_plan(cmd), 10 + from, 10 + to, r);
    }
    (r, t)
}

} // verus!
