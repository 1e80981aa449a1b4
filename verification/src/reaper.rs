//! The group reaper of the session-based backend.
//!
//! A process group is reaped by waiting, again and again, on "any member of
//! this group". Each answer of the operating system is one [`WaitEvent`]; the
//! reaper classifies it, remembers the status of the group's leader when it is
//! the leader that was reaped, and says whether the group is now empty.

use crate::error::GroupError;
use crate::status::ExitStatus;
use vstd::prelude::*;

verus! {

/// One answer of the operating system to a wait on any member of a group.
#[derive(Clone, Copy, Debug, PartialEq, Eq, Structural)]
pub enum WaitEvent {
    /// No member was ready to report; only a wait that does not block says so.
    StillAlive,
    /// There is no member left to wait for.
    NoChild,
    /// The wait itself failed with this error number.
    Failed { code: i32 },
    /// The process `pid` has ended with `status` and has been reaped.
    Reaped { pid: i32, status: ExitStatus },
    /// A member changed state without ending (stopped, continued, traced).
    Changed,
}

/// What the reaper concludes from one event.
#[derive(Clone, Copy, Debug, PartialEq, Eq, Structural)]
pub enum ReapStep {
    /// A member was accounted for; others may remain, so the wait goes on.
    Continue,
    /// Members remain and none of them is ready: the group is still running.
    Running,
    /// No member remains. Carries the leader's status, if the leader was reaped here.
    Emptied { leader: Option<ExitStatus> },
    /// The reap mechanism failed.
    Failed { error: GroupError },
}

/// The reaper's state as a mathematical value: the leader's process
/// identifier, which is the group's identity, and the leader's status once the
/// leader has been reaped.
pub struct ReaperState {
    pub leader: int,
    pub candidate: Option<ExitStatus>,
}

impl ReaperState {
    /// The state after one event: only the reaping of the leader itself
    /// changes it, by remembering the status.
    pub open spec fn after(self, event: WaitEvent) -> ReaperState {
        match event {
            WaitEvent::Reaped { pid, status } if pid == self.leader => ReaperState {
                leader: self.leader,
                candidate: Some(status),
            },
            _ => self,
        }
    }

    /// What one event means for the group.
    pub open spec fn verdict(self, event: WaitEvent) -> ReapStep {
        match event {
            WaitEvent::StillAlive => ReapStep::Running,
            WaitEvent::NoChild => ReapStep::Emptied { leader: self.candidate },
            WaitEvent::Failed { code } => ReapStep::Failed { error: GroupError::Wait { code } },
            WaitEvent::Reaped { .. } => ReapStep::Continue,
            WaitEvent::Changed => ReapStep::Continue,
        }
    }

    /// The state and the verdict after a run of events. The run stops at the
    /// first event whose verdict is not `Continue`; what follows it is not
    /// looked at. A run that never stops ends in `Continue`.
    pub open spec fn replay(self, events: Seq<WaitEvent>) -> (ReaperState, ReapStep)
        decreases events.len(),
    {
        if events.len() == 0 {
            (self, ReapStep::Continue)
        } else {
            let (mid, step) = self.replay(events.drop_last());
            if step is Continue {
                (mid.after(events.last()), mid.verdict(events.last()))
            } else {
                (mid, step)
            }
        }
    }
}

/// The status with which the process `leader` was last reaped in `events`.
pub open spec fn last_status_of(leader: int, events: Seq<WaitEvent>) -> Option<ExitStatus>
    decreases events.len(),
{
    if events.len() == 0 {
        None
    } else {
        match events.last() {
            WaitEvent::Reaped { pid, status } if pid == leader => Some(status),
            _ => last_status_of(leader, events.drop_last()),
        }
    }
}

/// Every event of the run reports a member that ended or changed state.
pub open spec fn all_members(events: Seq<WaitEvent>) -> bool {
    forall|i: int|
        0 <= i < events.len() ==> (#[trigger] events[i] is Reaped || events[i] is Changed)
}

/// The reaper of one process group.
#[derive(Debug)]
pub struct GroupReaper {
    leader: i32,
    candidate: Option<ExitStatus>,
}

impl View for GroupReaper {
    type V = ReaperState;

    closed spec fn view(&self) -> ReaperState {
        ReaperState { leader: self.leader as int, candidate: self.candidate }
    }
}

impl GroupReaper {
    /// A group identity is the process identifier of a spawned leader: it is
    /// above 1, the identifier of the system's first process.
    #[verifier::type_invariant]
    spec fn valid(&self) -> bool {
        self.leader > 1
    }

    /// Whether `pid` can be the identity of a process group.
    pub open spec fn spec_accepts(pid: u32) -> bool {
        1 < pid <= i32::MAX
    }

    /// Whether `pid` can be the identity of a process group.
    #[verifier::when_used_as_spec(spec_accepts)]
    pub fn accepts(pid: u32) -> (yes: bool)
        ensures
            yes == Self::spec_accepts(pid),
    {
        1 < pid && pid <= 0x7fff_ffff
    }

    /// The reaper of the group led by the freshly spawned process `pid`.
    pub fn new(pid: u32) -> (reaper: Self)
        requires
            Self::spec_accepts(pid),
        ensures
            reaper@ == (ReaperState { leader: pid as int, candidate: None }),
    {
        GroupReaper { leader: pid as i32, candidate: None }
    }

    /// The group's identity.
    pub fn leader(&self) -> (pid: i32)
        ensures
            pid == self@.leader,
            pid > 1,
    {
        proof {
            use_type_invariant(self);
        }
        self.leader
    }

    /// The leader's status, once the leader has been reaped.
    pub fn candidate(&self) -> (status: Option<ExitStatus>)
        ensures
            status == self@.candidate,
    {
        self.candidate
    }

    /// What a wait on any member of the group is addressed to: the negated
    /// identity, which the operating system reads as "the whole group".
    pub fn wait_target(&self) -> (target: i32)
        ensures
            target == -self@.leader,
            target < -1,
    {
        proof {
            use_type_invariant(self);
        }
        -self.leader
    }

    /// Takes one answer of the operating system into account.
    pub fn observe(&mut self, event: WaitEvent) -> (step: ReapStep)
        ensures
            final(self)@ == old(self)@.after(event),
            step == old(self)@.verdict(event),
    {
        proof {
            use_type_invariant(&*self);
        }
        match event {
            WaitEvent::StillAlive => ReapStep::Running,
            WaitEvent::NoChild => ReapStep::Emptied { leader: self.candidate },
            WaitEvent::Failed { code } => ReapStep::Failed { error: GroupError::Wait { code } },
            WaitEvent::Reaped { pid, status } => {
                if pid == self.leader {
                    self.candidate = Some(status);
                }
                ReapStep::Continue
            },
            WaitEvent::Changed => ReapStep::Continue,
        }
    }
}

/// One more event after a run that has not stopped: the run's state takes the
/// event, and the event's verdict is the run's.
pub proof fn lemma_replay_push(state: ReaperState, events: Seq<WaitEvent>, event: WaitEvent)
    requires
        state.replay(events).1 is Continue,
    ensures
        state.replay(events.push(event)) == (
            state.replay(events).0.after(event),
            state.replay(events).0.verdict(event),
        ),
{
    assert(events.push(event).drop_last() =~= events);
}

/// A run of members that ended or changed state never stops the reaper, keeps
/// the group's identity, and leaves as candidate the status with which the
/// leader was last reaped, or the earlier candidate if the run did not reap it.
pub proof fn lemma_members_only(state: ReaperState, events: Seq<WaitEvent>)
    requires
        all_members(events),
    ensures
        state.replay(events).1 is Continue,
        state.replay(events).0.leader == state.leader,
        state.replay(events).0.candidate == match last_status_of(state.leader, events) {
            Some(status) => Some(status),
            None => state.candidate,
        },
    decreases events.len(),
{
    if events.len() > 0 {
        let front = events.drop_last();
        assert forall|i: int| 0 <= i < front.len() implies (#[trigger] front[i] is Reaped
            || front[i] is Changed) by {
            assert(front[i] == events[i]);
        }
        lemma_members_only(state, front);
        assert(events.last() == events[events.len() - 1]);
    }
}

/// However many descendants a group has, and in whatever order it and they
/// end: once the operating system has reported each of them and then that no
/// member is left, the reaper declares the group empty and hands out the
/// status with which the leader was reaped.
pub proof fn law_group_reaped_whole(state: ReaperState, members: Seq<WaitEvent>)
    requires
        all_members(members),
    ensures
        state.replay(members.push(WaitEvent::NoChild)).1 == (ReapStep::Emptied {
            leader: match last_status_of(state.leader, members) {
                Some(status) => Some(status),
                None => state.candidate,
            },
        }),
{
    lemma_members_only(state, members);
    lemma_replay_push(state, members, WaitEvent::NoChild);
}

/// A descendant that ends is accounted for without touching the leader's
/// status: only the leader's own end is attributed to the leader.
pub proof fn law_descendants_not_attributed(state: ReaperState, pid: i32, status: ExitStatus)
    requires
        pid != state.leader,
    ensures
        state.after(WaitEvent::Reaped { pid, status }) == state,
        state.verdict(WaitEvent::Reaped { pid, status }) == ReapStep::Continue,
{
}

/// The reaper fails only as the wait fails: whatever the run, a failure it
/// reports is a wait failure. And whatever the run, the group keeps its
/// identity.
pub proof fn law_failure_is_wait_failure(state: ReaperState, events: Seq<WaitEvent>)
    ensures
        state.replay(events).1 matches ReapStep::Failed { error } ==> error is Wait,
        state.replay(events).0.leader == state.leader,
    decreases events.len(),
{
    if events.len() > 0 {
        law_failure_is_wait_failure(state, events.drop_last());
    }
}

/// A group whose members are all still running is reported as running by a
/// wait that does not block: no error, no status, and nothing forgotten.
pub proof fn law_poll_before_exit(state: ReaperState)
    ensures
        state.replay(seq![WaitEvent::StillAlive]) == (state, ReapStep::Running),
{
    let events = seq![WaitEvent::StillAlive];
    assert(events.drop_last() =~= Seq::<WaitEvent>::empty());
    assert(state.replay(events.drop_last()) == (state, ReapStep::Continue));
}

} // verus!
