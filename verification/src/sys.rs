//! The calls into the operating system, through the `nix` crate.
//!
//! Nothing in this file is proved. Each function makes one call and turns what
//! came back into a value of this library; what it promises, if anything, is
//! taken on trust from the called function's source.

use crate::reaper::WaitEvent;
use crate::status::ExitStatus;
use nix::errno::Errno;
use nix::sys::signal::{kill, killpg, Signal};
use nix::sys::wait::{waitpid, WaitPidFlag, WaitStatus};
use nix::unistd::Pid;
use vstd::prelude::*;

verus! {

/// What became of a signal that was sent.
#[derive(Clone, Copy, Debug, PartialEq, Eq, Structural)]
pub enum SignalOutcome {
    /// The operating system accepted the signal for delivery.
    Delivered,
    /// There is no process, or no process group, of the given identity.
    NoSuchProcess,
    /// The signal was not sent, for the reason this error number gives.
    Failed { code: i32 },
}

/// Calls `nix::sys::wait::waitpid` on `target`, a negated group identity, with
/// the flag `WNOHANG` if `nohang` is set and with no flag otherwise.
///
/// Nothing is claimed of the answer: which member ends when is the operating
/// system's business. The answer is only renamed: an exit or a kill is
/// `Reaped`, any other change of state `Changed`, the error `ECHILD` is
/// `NoChild`, any other error `Failed` with its number.
///
/// Without `nohang` the call comes back when a member changes state, and not
/// before. `waitpid` decodes the status word it gets and stops the program on
/// a word that is none of exited, killed, stopped or continued; the kernel
/// reports no other.
#[verifier::external_body]
pub(crate) fn wait_any(target: i32, nohang: bool) -> (event: WaitEvent)
    requires
        target < -1,
{
    let flag = if nohang { WaitPidFlag::WNOHANG } else { WaitPidFlag::empty() };
    match waitpid(Pid::from_raw(target), Some(flag)) {
        Ok(WaitStatus::StillAlive) => WaitEvent::StillAlive,
        Ok(WaitStatus::Exited(pid, code)) => {
            WaitEvent::Reaped { pid: pid.as_raw(), status: ExitStatus::Exited { code } }
        },
        Ok(WaitStatus::Signaled(pid, signal, core_dumped)) => WaitEvent::Reaped {
            pid: pid.as_raw(),
            status: ExitStatus::Signaled { signal: signal as i32, core_dumped },
        },
        Ok(_) => WaitEvent::Changed,
        Err(Errno::ECHILD) => WaitEvent::NoChild,
        Err(errno) => WaitEvent::Failed { code: errno as i32 },
    }
}

/// Calls `nix::sys::signal::killpg` to send the signal numbered `signal` to
/// every member of the process group `pgid`.
///
/// Nothing is claimed of the outcome. A number that names no signal is
/// answered as the conversion `Signal::try_from` answers it, with `Failed`.
#[verifier::external_body]
pub(crate) fn signal_group(pgid: i32, signal: i32) -> (outcome: SignalOutcome)
    requires
        pgid > 1,
{
    let sent = match Signal::try_from(signal) {
        Ok(signal) => killpg(Pid::from_raw(pgid), signal),
        Err(errno) => Err(errno),
    };
    match sent {
        Ok(()) => SignalOutcome::Delivered,
        Err(Errno::ESRCH) => SignalOutcome::NoSuchProcess,
        Err(errno) => SignalOutcome::Failed { code: errno as i32 },
    }
}

/// Calls `nix::sys::signal::kill` to send the signal numbered `signal` to the
/// single process `pid`.
///
/// Nothing is claimed of the outcome. A number that names no signal is
/// answered as the conversion `Signal::try_from` answers it, with `Failed`.
#[verifier::external_body]
pub(crate) fn signal_process(pid: i32, signal: i32) -> (outcome: SignalOutcome)
    requires
        pid > 0,
{
    let sent = match Signal::try_from(signal) {
        Ok(signal) => kill(Pid::from_raw(pid), signal),
        Err(errno) => Err(errno),
    };
    match sent {
        Ok(()) => SignalOutcome::Delivered,
        Err(Errno::ESRCH) => SignalOutcome::NoSuchProcess,
        Err(errno) => SignalOutcome::Failed { code: errno as i32 },
    }
}

} // verus!
