//! The kernel-object backend: a group is a job object that reports on a
//! completion port when its last active process has gone.
//!
//! This file decides; it makes no system call. The caller dequeues from the
//! port, terminates the job and closes handles, and asks here what an answer
//! means and what is to be done.

use crate::error::GroupError;
use crate::winres::{spec_res_bool, JobPort, Release};
use vstd::prelude::*;

verus! {

/// The timeout that lets a dequeue block until a packet arrives.
pub const INFINITE: u32 = 0xFFFF_FFFF;

/// The message with which a job reports that no active process is left in it.
pub const JOB_OBJECT_MSG_ACTIVE_PROCESS_ZERO: u32 = 4;

/// The exit code given to the members of a job that is terminated.
pub const TERMINATED_EXIT_CODE: u32 = 1;

/// What a dequeue from the completion port returned, as the raw values.
#[derive(Clone, Copy, Debug, PartialEq, Eq, Structural)]
pub struct Dequeued {
    /// The call's truth value.
    pub ret: i32,
    /// The message of the packet.
    pub message: u32,
    /// The key of the packet: the handle of the job that sent it.
    pub key: usize,
    /// Whether the call left the packet's overlapped pointer null.
    pub overlapped_null: bool,
    /// The thread's last error number after the call.
    pub last_error: i32,
}

/// One answer of the completion port.
#[derive(Clone, Copy, Debug, PartialEq, Eq, Structural)]
pub enum PortEvent {
    /// The timeout ran out with no packet.
    TimedOut,
    /// A packet was dequeued.
    Packet { message: u32, key: usize },
    /// The dequeue failed with this error number.
    Failed { code: i32 },
}

/// What one answer of the port means for the group.
#[derive(Clone, Copy, Debug, PartialEq, Eq, Structural)]
pub enum PortStep {
    /// The packet is not this group's farewell: dequeue again.
    Continue,
    /// No packet for now: the group is still running.
    Running,
    /// No active process is left in the job.
    Emptied,
    /// The reap mechanism failed.
    Failed { error: GroupError },
}

/// The answer that the raw values of a dequeue with `timeout` stand for. A
/// call that returns false and leaves no packet has timed out, unless it was
/// told to wait for ever: then, and with a packet, false is a failure.
pub open spec fn port_event(timeout: u32, dequeued: Dequeued) -> PortEvent {
    if dequeued.ret != 0 {
        PortEvent::Packet { message: dequeued.message, key: dequeued.key }
    } else if timeout != INFINITE && dequeued.overlapped_null {
        PortEvent::TimedOut
    } else {
        PortEvent::Failed { code: dequeued.last_error }
    }
}

/// What an answer of the port means for the group whose job is `job`. Only
/// the message that no active process is left, under the key of this very
/// job, empties the group; every other packet is passed over.
pub open spec fn port_verdict(job: usize, event: PortEvent) -> PortStep {
    match event {
        PortEvent::TimedOut => PortStep::Running,
        PortEvent::Packet { message, key } => if message == JOB_OBJECT_MSG_ACTIVE_PROCESS_ZERO
            && key == job {
            PortStep::Emptied
        } else {
            PortStep::Continue
        },
        PortEvent::Failed { code } => PortStep::Failed { error: GroupError::Wait { code } },
    }
}

/// The verdict after a run of answers: that of the first answer which is
/// not passed over, and `Continue` if all of them are.
pub open spec fn port_replay(job: usize, events: Seq<PortEvent>) -> PortStep
    decreases events.len(),
{
    if events.len() == 0 {
        PortStep::Continue
    } else {
        match port_replay(job, events.drop_last()) {
            PortStep::Continue => port_verdict(job, events.last()),
            step => step,
        }
    }
}

/// The packet is not the farewell of the job `job`.
pub open spec fn unrelated(job: usize, event: PortEvent) -> bool {
    event matches PortEvent::Packet { message, key } && !(message
        == JOB_OBJECT_MSG_ACTIVE_PROCESS_ZERO && key == job)
}

/// What the port's verdict means to a caller that blocks until the group is
/// empty. Only an emptied group lets the wait go on to the leader's status;
/// a blocking dequeue that came back with nothing has broken its word.
pub open spec fn port_blocking_result(step: PortStep) -> Result<(), GroupError> {
    match step {
        PortStep::Emptied => Ok(()),
        PortStep::Running => Err(GroupError::Internal),
        PortStep::Continue => Err(GroupError::Internal),
        PortStep::Failed { error } => Err(error),
    }
}

/// What the port's verdict means to a caller that polls: whether the group
/// is empty, so that the leader's status can be asked for.
pub open spec fn port_polling_result(step: PortStep) -> Result<bool, GroupError> {
    match step {
        PortStep::Emptied => Ok(true),
        PortStep::Running => Ok(false),
        PortStep::Continue => Ok(false),
        PortStep::Failed { error } => Err(error),
    }
}

/// What the answer of the call that terminates a job means to the caller.
pub open spec fn terminate_result(ret: i32, last_error: i32) -> Result<(), GroupError> {
    match spec_res_bool(ret, last_error) {
        Ok(_) => Ok(()),
        Err(code) => Err(GroupError::Signal { code }),
    }
}

/// A process group of the kernel-object backend.
#[derive(Debug)]
pub struct ChildImp {
    handles: JobPort,
}

impl View for ChildImp {
    type V = JobPort;

    closed spec fn view(&self) -> JobPort {
        self.handles
    }
}

impl ChildImp {
    /// The group that the job `job` holds and that reports on `completion_port`.
    pub fn new(job: usize, completion_port: usize) -> (imp: Self)
        ensures
            imp@ == (JobPort { job, completion_port }),
    {
        ChildImp { handles: JobPort { job, completion_port } }
    }

    /// The group's two kernel objects.
    pub fn handles(&self) -> (handles: JobPort)
        ensures
            handles == self@,
    {
        self.handles
    }

    /// The timeout to dequeue with: none at all for a poll, which must come
    /// back at once; for ever for a wait.
    pub fn wait_timeout(nohang: bool) -> (timeout: u32)
        ensures
            timeout == if nohang {
                0
            } else {
                INFINITE
            },
    {
        if nohang {
            0
        } else {
            INFINITE
        }
    }

    /// Reads the raw values of a dequeue that was made with `timeout`.
    pub fn classify(timeout: u32, dequeued: Dequeued) -> (event: PortEvent)
        ensures
            event == port_event(timeout, dequeued),
    {
        if dequeued.ret != 0 {
            PortEvent::Packet { message: dequeued.message, key: dequeued.key }
        } else if timeout != INFINITE && dequeued.overlapped_null {
            PortEvent::TimedOut
        } else {
            PortEvent::Failed { code: dequeued.last_error }
        }
    }

    /// Says what one answer of the port means for this group.
    pub fn observe(&self, event: PortEvent) -> (step: PortStep)
        ensures
            step == port_verdict(self@.job, event),
            step is Emptied <==> event == (PortEvent::Packet {
                message: JOB_OBJECT_MSG_ACTIVE_PROCESS_ZERO,
                key: self@.job,
            }),
    {
        match event {
            PortEvent::TimedOut => PortStep::Running,
            PortEvent::Packet { message, key } => {
                if message == JOB_OBJECT_MSG_ACTIVE_PROCESS_ZERO && key == self.handles.job {
                    PortStep::Emptied
                } else {
                    PortStep::Continue
                }
            },
            PortEvent::Failed { code } => PortStep::Failed { error: GroupError::Wait { code } },
        }
    }

    /// Turns the port's verdict into the result of a blocking wait.
    pub fn settle_blocking(step: PortStep) -> (res: Result<(), GroupError>)
        ensures
            res == port_blocking_result(step),
    {
        match step {
            PortStep::Emptied => Ok(()),
            PortStep::Running => Err(GroupError::Internal),
            PortStep::Continue => Err(GroupError::Internal),
            PortStep::Failed { error } => Err(error),
        }
    }

    /// Turns the port's verdict into the result of a poll.
    pub fn settle_polling(step: PortStep) -> (res: Result<bool, GroupError>)
        ensures
            res == port_polling_result(step),
    {
        match step {
            PortStep::Emptied => Ok(true),
            PortStep::Running => Ok(false),
            PortStep::Continue => Ok(false),
            PortStep::Failed { error } => Err(error),
        }
    }

    /// What to terminate, and with which exit code, to end every member of
    /// the group at once: the job itself.
    pub fn kill_request(&self) -> (request: (usize, u32))
        ensures
            request == (self@.job, TERMINATED_EXIT_CODE),
    {
        (self.handles.job, TERMINATED_EXIT_CODE)
    }

    /// Reads the answer of the call that terminates the job.
    pub fn settle_kill(ret: i32, last_error: i32) -> (res: Result<(), GroupError>)
        ensures
            res == terminate_result(ret, last_error),
    {
        if ret == 0 {
            Err(GroupError::Signal { code: last_error })
        } else {
            Ok(())
        }
    }

    /// Gives up the group and keeps it alive: only the completion port, which
    /// nobody will listen on any more, is to be closed. The job's handle is
    /// left open on purpose, for closing it can terminate every member.
    pub fn into_inner(self) -> (release: Release)
        ensures
            release == (Release {
                job: None,
                completion_port: Some(self@.completion_port),
                process: None,
            }),
    {
        Release { job: None, completion_port: Some(self.handles.completion_port), process: None }
    }

    /// Ends the handle of a group that was not given up: both kernel objects
    /// are to be closed.
    pub fn release(self) -> (release: Release)
        ensures
            release == (Release {
                job: Some(self@.job),
                completion_port: Some(self@.completion_port),
                process: None,
            }),
    {
        Release {
            job: Some(self.handles.job),
            completion_port: Some(self.handles.completion_port),
            process: None,
        }
    }
}

/// Packets that are not this job's farewell never end the wait, however many
/// of them arrive: notifications about other jobs, and other messages of
/// this one, are passed over.
pub proof fn law_unrelated_packets_ignored(job: usize, events: Seq<PortEvent>)
    requires
        forall|i: int| 0 <= i < events.len() ==> unrelated(job, #[trigger] events[i]),
    ensures
        port_replay(job, events) == PortStep::Continue,
    decreases events.len(),
{
    if events.len() > 0 {
        let earlier = events.drop_last();
        assert forall|i: int| 0 <= i < earlier.len() implies unrelated(
            job,
            #[trigger] earlier[i],
        ) by {
            assert(earlier[i] == events[i]);
        }
        law_unrelated_packets_ignored(job, earlier);
        assert(unrelated(job, events[events.len() - 1]));
    }
}

/// After any number of unrelated packets, the job's own farewell empties the
/// group, and a poll that finds the port empty reports it as still running.
pub proof fn law_farewell_ends_wait(job: usize, events: Seq<PortEvent>)
    requires
        forall|i: int| 0 <= i < events.len() ==> unrelated(job, #[trigger] events[i]),
    ensures
        port_replay(
            job,
            events.push(
                PortEvent::Packet { message: JOB_OBJECT_MSG_ACTIVE_PROCESS_ZERO, key: job },
            ),
        ) == PortStep::Emptied,
        port_replay(job, events.push(PortEvent::TimedOut)) == PortStep::Running,
{
    law_unrelated_packets_ignored(job, events);
    let farewell = PortEvent::Packet { message: JOB_OBJECT_MSG_ACTIVE_PROCESS_ZERO, key: job };
    assert(events.push(farewell).drop_last() =~= events);
    assert(events.push(PortEvent::TimedOut).drop_last() =~= events);
}

/// A poll never waits: its timeout is zero, and a dequeue that comes back
/// empty-handed under it is a timeout, not a failure.
pub proof fn law_poll_times_out(dequeued: Dequeued)
    requires
        dequeued.ret == 0,
        dequeued.overlapped_null,
    ensures
        port_event(0, dequeued) == PortEvent::TimedOut,
        port_event(INFINITE, dequeued) == (PortEvent::Failed { code: dequeued.last_error }),
{
}

} // verus!
