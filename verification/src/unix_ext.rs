//! Signals for children, grouped or not.

use crate::child::unix::{settle_signal, signal_result};
use crate::error::GroupError;
use crate::sys::{signal_process, SignalOutcome};
use vstd::prelude::*;

verus! {

/// Whether `pid` can be the identifier of a single process to signal.
pub open spec fn spec_is_process(pid: u32) -> bool {
    0 < pid <= i32::MAX
}

/// Whether `pid` can be the identifier of a single process to signal.
#[verifier::when_used_as_spec(spec_is_process)]
pub fn is_process(pid: u32) -> (yes: bool)
    ensures
        yes == spec_is_process(pid),
{
    0 < pid && pid <= 0x7fff_ffff
}

/// Sends the signal numbered `signal` to the single process `pid`, and to
/// nothing else: not to its group, not to its descendants.
///
/// The answer is that of [`settle_signal`] on what the operating system
/// said: a process that is not there makes the operation invalid.
pub fn signal_child(pid: u32, signal: i32) -> (res: Result<(), GroupError>)
    requires
        spec_is_process(pid),
    ensures
        exists|outcome: SignalOutcome| res == #[trigger] signal_result(outcome),
{
    let outcome = signal_process(pid as i32, signal);
    settle_signal(outcome)
}

/// Sends the signal numbered `signal` to a child known by the identifier it
/// has until it is reaped. A child that has no identifier any more has been
/// reaped: nothing is sent, and that is no failure.
pub fn signal_unreaped(pid: Option<u32>, signal: i32) -> (res: Result<(), GroupError>)
    requires
        pid matches Some(pid) ==> spec_is_process(pid),
    ensures
        pid is None ==> res == Ok::<(), GroupError>(()),
        exists|outcome: SignalOutcome| res == #[trigger] signal_result(outcome),
{
    match pid {
        Some(pid) => signal_child(pid, signal),
        None => {
            assert(signal_result(SignalOutcome::Delivered) == Ok::<(), GroupError>(()));
            Ok(())
        },
    }
}

/// Children that can be sent a signal.
pub trait UnixChildExt {
    /// Sends the signal numbered `signal` to the child: to the process, or,
    /// for a group, to every member of it.
    fn signal(&mut self, signal: i32) -> Result<(), GroupError>;
}

} // verus!
