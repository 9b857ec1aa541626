use crate::record::LogLevel;
use vstd::prelude::*;

verus! {

/// A step of the loader that can fail.
#[derive(Clone, Copy, Debug, PartialEq, Eq, Structural)]
pub enum Failure {
    /// Raising the limit on locked memory.
    MemlockLimit,
    /// Starting the relay of the probe's log records.
    LogRelay,
    /// Loading the probe image or the probe into the kernel.
    Load,
    /// Attaching the probe to its hook point.
    Attach,
    /// Waiting for the interrupt signal.
    Signal,
}

/// What the loader does after a failed setup step.
#[derive(Clone, Copy, Debug, PartialEq, Eq, Structural)]
pub enum Response {
    /// Report the failure at the given severity and go on without what the step set up.
    Continue(LogLevel),
    /// Stop, and exit with an error.
    Exit,
}

/// Setup failures are tolerated, with less functionality; load and attach failures, and a
/// failure to wait for the interrupt signal, end the loader.
pub fn on_failure(failure: Failure) -> (r: Response)
    ensures
        failure == Failure::MemlockLimit ==> r == Response::Continue(LogLevel::Debug),
        failure == Failure::LogRelay ==> r == Response::Continue(LogLevel::Warn),
        failure == Failure::Load ==> r == Response::Exit,
        failure == Failure::Attach ==> r == Response::Exit,
        failure == Failure::Signal ==> r == Response::Exit,
{
    match failure {
        Failure::MemlockLimit => Response::Continue(LogLevel::Debug),
        Failure::LogRelay => Response::Continue(LogLevel::Warn),
        Failure::Load => Response::Exit,
        Failure::Attach => Response::Exit,
        Failure::Signal => Response::Exit,
    }
}

/// What the loader waits for once the probe is attached.
#[derive(Clone, Copy, Debug, PartialEq, Eq, Structural)]
pub enum Wait {
    /// The given number of seconds.
    Seconds(u64),
    /// An interrupt signal.
    Interrupt,
}

/// A duration in whole seconds, when one was given, else an interrupt.
pub fn wait_plan(duration: Option<u64>) -> (r: Wait)
    ensures
        r == match duration {
            Some(secs) => Wait::Seconds(secs),
            None => Wait::Interrupt,
        },
{
    match duration {
        Some(secs) => Wait::Seconds(secs),
        None => Wait::Interrupt,
    }
}

/// Exit status of the loader: zero when it shut down cleanly, one when it stopped on a
/// failure.
pub fn exit_code(outcome: Result<(), Failure>) -> (r: i32)
    ensures
        r == 0 <==> outcome is Ok,
        outcome is Err ==> r == 1,
{
    match outcome {
        Ok(()) => 0,
        Err(_) => 1,
    }
}

} // verus!
