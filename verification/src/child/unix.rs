//! The session-based backend: a process group known by its leader's process
//! identifier, signalled and reaped through the operating system's group calls.

use crate::error::GroupError;
use crate::reaper::{
    all_members, last_status_of, law_group_reaped_whole, lemma_replay_push, GroupReaper, ReapStep,
    ReaperState, WaitEvent,
};
use crate::status::ExitStatus;
use crate::sys::{signal_group, wait_any, SignalOutcome};
use crate::unix_ext::UnixChildExt;
use vstd::prelude::*;

verus! {

/// The number of the signal that cannot be caught or ignored.
pub const SIGKILL: i32 = 9;

/// What a sent signal's outcome means to the caller: a group that is not there
/// any more makes the operation invalid, any other refusal is a signal failure.
pub open spec fn signal_result(outcome: SignalOutcome) -> Result<(), GroupError> {
    match outcome {
        SignalOutcome::Delivered => Ok(()),
        SignalOutcome::NoSuchProcess => Err(GroupError::InvalidOperation),
        SignalOutcome::Failed { code } => Err(GroupError::Signal { code }),
    }
}

/// What the reaper's verdict means to a caller that blocks until the group is
/// empty: only an emptied group whose leader was reaped gives a status. That
/// the wait came back with nothing, which a blocking wait must not do, is an
/// internal failure and never passed off as "no status yet".
pub open spec fn blocking_result(step: ReapStep) -> Result<ExitStatus, GroupError> {
    match step {
        ReapStep::Emptied { leader: Some(status) } => Ok(status),
        ReapStep::Emptied { leader: None } => Err(GroupError::Internal),
        ReapStep::Running => Err(GroupError::Internal),
        ReapStep::Continue => Err(GroupError::Internal),
        ReapStep::Failed { error } => Err(error),
    }
}

/// What the reaper's verdict means to a caller that polls: a group with
/// members left is "not yet exited", which is no error.
pub open spec fn polling_result(step: ReapStep) -> Result<Option<ExitStatus>, GroupError> {
    match step {
        ReapStep::Emptied { leader } => Ok(leader),
        ReapStep::Running => Ok(None),
        ReapStep::Continue => Ok(None),
        ReapStep::Failed { error } => Err(error),
    }
}

/// Turns the outcome of a sent signal into the caller's result.
pub fn settle_signal(outcome: SignalOutcome) -> (res: Result<(), GroupError>)
    ensures
        res == signal_result(outcome),
{
    match outcome {
        SignalOutcome::Delivered => Ok(()),
        SignalOutcome::NoSuchProcess => Err(GroupError::InvalidOperation),
        SignalOutcome::Failed { code } => Err(GroupError::Signal { code }),
    }
}

/// Turns the reaper's verdict into the result of a blocking wait.
pub fn settle_blocking(step: ReapStep) -> (res: Result<ExitStatus, GroupError>)
    ensures
        res == blocking_result(step),
{
    match step {
        ReapStep::Emptied { leader: Some(status) } => Ok(status),
        ReapStep::Emptied { leader: None } => Err(GroupError::Internal),
        ReapStep::Running => Err(GroupError::Internal),
        ReapStep::Continue => Err(GroupError::Internal),
        ReapStep::Failed { error } => Err(error),
    }
}

/// Turns the reaper's verdict into the result of a poll.
pub fn settle_polling(step: ReapStep) -> (res: Result<Option<ExitStatus>, GroupError>)
    ensures
        res == polling_result(step),
{
    match step {
        ReapStep::Emptied { leader } => Ok(leader),
        ReapStep::Running => Ok(None),
        ReapStep::Continue => Ok(None),
        ReapStep::Failed { error } => Err(error),
    }
}

/// A signal on its way to a process group.
#[derive(Clone, Copy, Debug, PartialEq, Eq, Structural)]
pub struct SignalRequest {
    /// The identity of the group that is signalled.
    pub group: i32,
    /// The number of the signal.
    pub signal: i32,
}

/// A process group of the session-based backend.
#[derive(Debug)]
pub struct ChildImp {
    reaper: GroupReaper,
}

impl View for ChildImp {
    type V = ReaperState;

    closed spec fn view(&self) -> ReaperState {
        self.reaper@
    }
}

impl ChildImp {
    /// The group led by the freshly spawned process `pid`, which was made the
    /// leader of a new group before its program started.
    pub fn new(pid: u32) -> (imp: Self)
        requires
            GroupReaper::spec_accepts(pid),
        ensures
            imp@ == (ReaperState { leader: pid as int, candidate: None }),
    {
        ChildImp { reaper: GroupReaper::new(pid) }
    }

    /// The group's identity: its leader's process identifier.
    pub fn id(&self) -> (pid: u32)
        ensures
            pid == self@.leader,
            GroupReaper::spec_accepts(pid),
    {
        self.reaper.leader() as u32
    }

    /// The leader's status, if the leader has been reaped already.
    pub fn candidate(&self) -> (status: Option<ExitStatus>)
        ensures
            status == self@.candidate,
    {
        self.reaper.candidate()
    }

    /// Gives up the group and hands back the leader's process identifier.
    /// Nothing is sent to the group and nothing is reaped.
    pub fn into_inner(self) -> (pid: u32)
        ensures
            pid == self@.leader,
            GroupReaper::spec_accepts(pid),
    {
        self.id()
    }

    /// What a signal for the group is addressed to: the group's identity,
    /// which stands for every member, not the leader alone.
    pub fn signal_request(&self, signal: i32) -> (request: SignalRequest)
        ensures
            request == (SignalRequest { group: self@.leader as i32, signal }),
            request.group > 1,
    {
        SignalRequest { group: self.reaper.leader(), signal }
    }

    /// Sends the signal numbered `signal` to every member of the group.
    ///
    /// The answer is that of [`settle_signal`] on what the operating system
    /// said: a group that is not there makes the operation invalid.
    pub fn signal_imp(&mut self, signal: i32) -> (res: Result<(), GroupError>)
        ensures
            final(self)@ == old(self)@,
            exists|outcome: SignalOutcome| res == #[trigger] signal_result(outcome),
    {
        let request = self.signal_request(signal);
        let outcome = signal_group(request.group, request.signal);
        settle_signal(outcome)
    }

    /// Sends every member of the group the signal that cannot be refused.
    pub fn kill(&mut self) -> (res: Result<(), GroupError>)
        ensures
            final(self)@ == old(self)@,
            exists|outcome: SignalOutcome| res == #[trigger] signal_result(outcome),
    {
        self.signal_imp(SIGKILL)
    }

    /// Waits on the members of the group, one after the other, until a wait
    /// says something else than "this member is accounted for", and gives the
    /// reaper's verdict on that. With `nohang` no wait blocks.
    ///
    /// Whatever the operating system answers, the group's state and the
    /// verdict are those of the reaper after some run of events. The verdict
    /// `Continue` is given only when as many members were accounted for as a
    /// `u64` can count, which bounds the loop.
    pub fn wait_imp(&mut self, nohang: bool) -> (step: ReapStep)
        ensures
            final(self)@.leader == old(self)@.leader,
            step matches ReapStep::Failed { error } ==> error is Wait,
            exists|events: Seq<WaitEvent>| reaped_through(old(self)@, events, final(self)@, step),
    {
        let target = self.reaper.wait_target();
        let ghost start = self@;
        let ghost mut seen = Seq::<WaitEvent>::empty();
        let mut members: u64 = 0;
        while members < u64::MAX
            invariant
                start == old(self)@,
                self@.leader == start.leader,
                target == -self@.leader,
                target < -1,
                start.replay(seen) == (self@, ReapStep::Continue),
            decreases u64::MAX - members,
        {
            let event = wait_any(target, nohang);
            let step = self.reaper.observe(event);
            proof {
                lemma_replay_push(start, seen, event);
                seen = seen.push(event);
            }
            match step {
                ReapStep::Continue => {},
                _ => {
                    assert(reaped_through(start, seen, self@, step));
                    return step;
                },
            }
            members = members + 1;
        }
        assert(reaped_through(start, seen, self@, ReapStep::Continue));
        ReapStep::Continue
    }

    /// Blocks until no member of the group is left, and hands out the status
    /// with which the leader was reaped.
    pub fn wait(&mut self) -> (res: Result<ExitStatus, GroupError>)
        ensures
            final(self)@.leader == old(self)@.leader,
            res matches Err(error) ==> error is Wait || error is Internal,
            exists|events: Seq<WaitEvent>| waited_through(old(self)@, events, final(self)@, res),
    {
        let step = self.wait_imp(false);
        let res = settle_blocking(step);
        proof {
            let events = choose|events: Seq<WaitEvent>|
                reaped_through(old(self)@, events, self@, step);
            assert(waited_through(old(self)@, events, self@, res));
        }
        res
    }

    /// Reaps what is ready without blocking. `None` says that members are
    /// left, or that the group emptied without its leader being reaped here.
    pub fn try_wait(&mut self) -> (res: Result<Option<ExitStatus>, GroupError>)
        ensures
            final(self)@.leader == old(self)@.leader,
            res matches Err(error) ==> error is Wait,
            exists|events: Seq<WaitEvent>| polled_through(old(self)@, events, final(self)@, res),
    {
        let step = self.wait_imp(true);
        let res = settle_polling(step);
        proof {
            let events = choose|events: Seq<WaitEvent>|
                reaped_through(old(self)@, events, self@, step);
            assert(polled_through(old(self)@, events, self@, res));
        }
        res
    }
}

impl UnixChildExt for ChildImp {
    /// Sends the signal numbered `signal` to every member of the group.
    fn signal(&mut self, signal: i32) -> (res: Result<(), GroupError>)
        ensures
            final(self)@ == old(self)@,
            exists|outcome: SignalOutcome| res == #[trigger] signal_result(outcome),
    {
        self.signal_imp(signal)
    }
}

/// A run of `events` takes the reaper from `start` to `end` with the verdict `step`.
pub open spec fn reaped_through(
    start: ReaperState,
    events: Seq<WaitEvent>,
    end: ReaperState,
    step: ReapStep,
) -> bool {
    start.replay(events) == (end, step)
}

/// A blocking wait that met the run of `events` takes the reaper from `start`
/// to `end` and answers `res`.
pub open spec fn waited_through(
    start: ReaperState,
    events: Seq<WaitEvent>,
    end: ReaperState,
    res: Result<ExitStatus, GroupError>,
) -> bool {
    &&& end == start.replay(events).0
    &&& res == blocking_result(start.replay(events).1)
}

/// A poll that met the run of `events` takes the reaper from `start` to `end`
/// and answers `res`.
pub open spec fn polled_through(
    start: ReaperState,
    events: Seq<WaitEvent>,
    end: ReaperState,
    res: Result<Option<ExitStatus>, GroupError>,
) -> bool {
    &&& end == start.replay(events).0
    &&& res == polling_result(start.replay(events).1)
}

/// No zombie is left and no status is lost: when a blocking wait meets the
/// end of every member, in whatever order and however many, and then the
/// report that no member is left, it answers with the status with which the
/// leader was reaped.
pub proof fn law_wait_reaps_whole_group(
    start: ReaperState,
    members: Seq<WaitEvent>,
    status: ExitStatus,
)
    requires
        all_members(members),
        last_status_of(start.leader, members) == Some(status),
    ensures
        waited_through(
            start,
            members.push(WaitEvent::NoChild),
            start.replay(members.push(WaitEvent::NoChild)).0,
            Ok(status),
        ),
{
    law_group_reaped_whole(start, members);
}

} // verus!
