//! The process launcher's decisions.
//!
//! Starting a program and waiting for it are the embedding program's work. What
//! to do next, given how the previous step went, is decided here: the caller
//! performs the pending [`LaunchStep`], reports whether it succeeded, and asks
//! again until the step is final.

use vstd::prelude::*;

verus! {

/// The process creation flag that keeps a console program from opening a
/// console window of its own. It is meant for the platform family that opens
/// such windows and has no meaning elsewhere.
pub const CREATE_NO_WINDOW: u32 = 0x0800_0000;

/// How a launched program is supervised.
#[derive(Copy, Clone, Debug, PartialEq, Eq, Structural)]
pub enum ExecMode {
    /// Start the program and return at once; it runs alongside the caller.
    Spawn,
    /// Start the program and block until it has exited.
    WaitForCompletion,
}

/// Why a launch did not hand back a process handle.
#[derive(Copy, Clone, Debug, PartialEq, Eq, Structural)]
pub enum LaunchError {
    /// The program could not be started.
    LaunchFailure,
    /// The program was started, but waiting for it failed.
    WaitFailure,
}

/// The step a launch is at: what the caller has to do now.
#[derive(Copy, Clone, Debug, PartialEq, Eq, Structural)]
pub enum LaunchStep {
    /// Create the process.
    Start,
    /// Block until the process has exited and drop its exit status.
    Wait,
    /// Final: hand the process handle to the caller.
    Return,
    /// Final: report the failure to the caller.
    Fail(LaunchError),
}

impl LaunchStep {
    /// True of the two kinds of step that end a launch.
    pub open spec fn is_final(self) -> bool {
        self is Return || self is Fail
    }

    /// The step that follows `self` under `mode` once `self` has been performed
    /// with the given success. A failed step is never retried, and a final step
    /// stays what it is.
    pub open spec fn followed_by(self, mode: ExecMode, succeeded: bool) -> LaunchStep {
        match self {
            LaunchStep::Start => if !succeeded {
                LaunchStep::Fail(LaunchError::LaunchFailure)
            } else if mode is Spawn {
                LaunchStep::Return
            } else {
                LaunchStep::Wait
            },
            LaunchStep::Wait => if succeeded {
                LaunchStep::Return
            } else {
                LaunchStep::Fail(LaunchError::WaitFailure)
            },
            _ => self,
        }
    }
}

/// The step a launch ends at when starting the program goes as `started` says
/// and waiting for it, where that is asked for, as `waited` says.
pub open spec fn outcome(mode: ExecMode, started: bool, waited: bool) -> LaunchStep {
    LaunchStep::Start.followed_by(mode, started).followed_by(mode, waited)
}

/// Every launch is over after two steps at most, and how it ends is settled
/// by the mode and by how the steps went: a program that cannot be started is
/// a launch failure under either mode; `Spawn` hands the handle back as soon
/// as the program runs and never waits; `WaitForCompletion` hands it back
/// only after a wait that succeeded.
pub proof fn launch_ends(mode: ExecMode, started: bool, waited: bool)
    ensures
        outcome(mode, started, waited).is_final(),
        outcome(mode, started, waited) == LaunchStep::Fail(LaunchError::LaunchFailure)
            <==> !started,
        outcome(mode, started, waited) == LaunchStep::Fail(LaunchError::WaitFailure) <==> started
            && mode is WaitForCompletion && !waited,
        outcome(mode, started, waited) == LaunchStep::Return <==> started && (mode is Spawn
            || waited),
        mode is Spawn ==> LaunchStep::Start.followed_by(mode, started).is_final(),
        mode is WaitForCompletion && started ==> LaunchStep::Start.followed_by(mode, started)
            == LaunchStep::Wait,
{
}

/// The step every launch begins with.
pub fn first_step() -> (step: LaunchStep)
    ensures
        step == LaunchStep::Start,
{
    LaunchStep::Start
}

/// Decides what follows `step` under `mode`, given whether `step` succeeded.
pub fn next_step(mode: ExecMode, step: LaunchStep, succeeded: bool) -> (next: LaunchStep)
    ensures
        next == step.followed_by(mode, succeeded),
{
    match step {
        LaunchStep::Start => {
            if !succeeded {
                LaunchStep::Fail(LaunchError::LaunchFailure)
            } else {
                match mode {
                    ExecMode::Spawn => LaunchStep::Return,
                    ExecMode::WaitForCompletion => LaunchStep::Wait,
                }
            }
        },
        LaunchStep::Wait => {
            if succeeded {
                LaunchStep::Return
            } else {
                LaunchStep::Fail(LaunchError::WaitFailure)
            }
        },
        LaunchStep::Return => LaunchStep::Return,
        LaunchStep::Fail(error) => LaunchStep::Fail(error),
    }
}

} // verus!
