//! The order of the steps that bring the shell up, and what a failure of
//! each one means.
//!
//! Startup is strict where activation is lenient: a shell without its
//! window, without its place on top, or without its shortcut is of no use,
//! so the first such failure ends the launch.

use vstd::prelude::*;
use crate::activation::Outcome;

verus! {

/// One step of bringing the shell up. The caller performs it and reports
/// back.
#[derive(Clone, Copy, Debug, PartialEq, Eq, Hash, Structural)]
pub enum StartupStep {
    /// Get hold of the one application window.
    AcquireWindow,
    /// Mark the window as always on top.
    PinOnTop,
    /// Build the shortcut binding. This cannot fail.
    BuildBinding,
    /// Hand the shortcut callback to the shortcut facility.
    InstallHandler,
    /// Make the binding globally active.
    RegisterBinding,
}

/// Why the launch was given up.
#[derive(Clone, Copy, Debug, PartialEq, Eq, Hash, Structural)]
pub enum StartupError {
    WindowMissing,
    PinOnTopFailed,
    HandlerRejected,
    RegistrationFailed,
}

/// What is to happen next during startup.
#[derive(Clone, Copy, Debug, PartialEq, Eq, Hash, Structural)]
pub enum Startup {
    /// Perform this step and report its outcome.
    Perform(StartupStep),
    /// Every step is done; shortcuts may fire from now on.
    Ready,
    /// Give the launch up for this reason.
    Abort(StartupError),
}

/// The error that a failure of `step` stands for, if its failure counts.
pub open spec fn failure_of(step: StartupStep) -> Option<StartupError> {
    match step {
        StartupStep::AcquireWindow => Some(StartupError::WindowMissing),
        StartupStep::PinOnTop => Some(StartupError::PinOnTopFailed),
        StartupStep::BuildBinding => None,
        StartupStep::InstallHandler => Some(StartupError::HandlerRejected),
        StartupStep::RegisterBinding => Some(StartupError::RegistrationFailed),
    }
}

/// The step that follows `step` when nothing went wrong; `None` after the
/// last.
pub open spec fn step_after(step: StartupStep) -> Option<StartupStep> {
    match step {
        StartupStep::AcquireWindow => Some(StartupStep::PinOnTop),
        StartupStep::PinOnTop => Some(StartupStep::BuildBinding),
        StartupStep::BuildBinding => Some(StartupStep::InstallHandler),
        StartupStep::InstallHandler => Some(StartupStep::RegisterBinding),
        StartupStep::RegisterBinding => None,
    }
}

/// The decision taken once `prev` ended with `outcome`; `None` for `prev`
/// stands for the very beginning.
pub open spec fn decision(prev: Option<StartupStep>, outcome: Outcome) -> Startup {
    match prev {
        None => Startup::Perform(StartupStep::AcquireWindow),
        Some(step) => {
            if outcome == Outcome::Failed && failure_of(step) is Some {
                Startup::Abort(failure_of(step)->Some_0)
            } else {
                match step_after(step) {
                    Some(next) => Startup::Perform(next),
                    None => Startup::Ready,
                }
            }
        },
    }
}

/// How many steps lie behind once `prev` is done.
pub open spec fn steps_done(prev: Option<StartupStep>) -> nat {
    match prev {
        None => 0,
        Some(StartupStep::AcquireWindow) => 1,
        Some(StartupStep::PinOnTop) => 2,
        Some(StartupStep::BuildBinding) => 3,
        Some(StartupStep::InstallHandler) => 4,
        Some(StartupStep::RegisterBinding) => 5,
    }
}

/// How a launch ends when step `s` goes as `outcomes(s)` says, seen from the
/// point where `prev` has just been performed: `Ready`, or the `Abort` of
/// the first failure that counts.
pub open spec fn launch_after(
    prev: Option<StartupStep>,
    outcomes: spec_fn(StartupStep) -> Outcome,
) -> Startup
    decreases 6 - steps_done(prev),
{
    let outcome = match prev {
        Some(step) => outcomes(step),
        None => Outcome::Done,
    };
    match decision(prev, outcome) {
        Startup::Perform(next) => launch_after(Some(next), outcomes),
        end => end,
    }
}

/// How a whole launch ends under the given outcomes.
pub open spec fn launch(outcomes: spec_fn(StartupStep) -> Outcome) -> Startup {
    launch_after(None, outcomes)
}

/// Decides what happens after `prev` ended with `outcome`. Pass `None` for
/// `prev` to begin; the outcome is then of no account.
pub fn startup_next(prev: Option<StartupStep>, outcome: Outcome) -> (next: Startup)
    ensures
        next == decision(prev, outcome),
{
    let failed = match outcome {
        Outcome::Failed => true,
        Outcome::Done => false,
    };
    match prev {
        None => Startup::Perform(StartupStep::AcquireWindow),
        Some(StartupStep::AcquireWindow) => {
            if failed {
                Startup::Abort(StartupError::WindowMissing)
            } else {
                Startup::Perform(StartupStep::PinOnTop)
            }
        },
        Some(StartupStep::PinOnTop) => {
            if failed {
                Startup::Abort(StartupError::PinOnTopFailed)
            } else {
                Startup::Perform(StartupStep::BuildBinding)
            }
        },
        Some(StartupStep::BuildBinding) => Startup::Perform(StartupStep::InstallHandler),
        Some(StartupStep::InstallHandler) => {
            if failed {
                Startup::Abort(StartupError::HandlerRejected)
            } else {
                Startup::Perform(StartupStep::RegisterBinding)
            }
        },
        Some(StartupStep::RegisterBinding) => {
            if failed {
                Startup::Abort(StartupError::RegistrationFailed)
            } else {
                Startup::Ready
            }
        },
    }
}

/// A launch ends in `Ready` exactly when none of the four steps that can
/// fail did; otherwise it is given up for the first of them that failed, in
/// the order window, always-on-top, handler, registration.
pub proof fn lemma_launch_outcome(outcomes: spec_fn(StartupStep) -> Outcome)
    ensures
        launch(outcomes) == if outcomes(StartupStep::AcquireWindow) == Outcome::Failed {
            Startup::Abort(StartupError::WindowMissing)
        } else if outcomes(StartupStep::PinOnTop) == Outcome::Failed {
            Startup::Abort(StartupError::PinOnTopFailed)
        } else if outcomes(StartupStep::InstallHandler) == Outcome::Failed {
            Startup::Abort(StartupError::HandlerRejected)
        } else if outcomes(StartupStep::RegisterBinding) == Outcome::Failed {
            Startup::Abort(StartupError::RegistrationFailed)
        } else {
            Startup::Ready
        },
{
    reveal_with_fuel(launch_after, 7);
}

} // verus!
