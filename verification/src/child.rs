//! The group handle: a spawned process group together with its terminal
//! status, which is captured once and repeated ever after.

use crate::child::unix::{polled_through, signal_result, waited_through, ChildImp};
use crate::error::GroupError;
use crate::reaper::{law_poll_before_exit, GroupReaper, ReaperState, WaitEvent};
use crate::status::{ExitStatus, Output};
use crate::sys::SignalOutcome;
use crate::unix_ext::UnixChildExt;
use vstd::prelude::*;

pub mod unix;
pub mod windows;

verus! {

/// What a handle does when it is asked for the group's status.
#[derive(Clone, Copy, Debug, PartialEq, Eq, Structural)]
pub enum WaitPlan {
    /// The status was captured before: hand it out, and ask the operating
    /// system nothing.
    Return { status: ExitStatus },
    /// No status yet: the group has to be reaped.
    Reap,
}

/// The plan that goes with a cached status.
pub open spec fn plan_for(cached: Option<ExitStatus>) -> WaitPlan {
    match cached {
        Some(status) => WaitPlan::Return { status },
        None => WaitPlan::Reap,
    }
}

/// The cache after something was observed: the first status that was
/// captured stays; an observation fills only an empty cache.
pub open spec fn capture(cached: Option<ExitStatus>, observed: Option<ExitStatus>) -> Option<
    ExitStatus,
> {
    match cached {
        Some(status) => Some(status),
        None => observed,
    }
}

/// The terminal status of a group: absent until first observed, immutable
/// from then on.
#[derive(Debug)]
pub struct StatusCache {
    status: Option<ExitStatus>,
}

impl View for StatusCache {
    type V = Option<ExitStatus>;

    closed spec fn view(&self) -> Option<ExitStatus> {
        self.status
    }
}

impl StatusCache {
    /// The cache of a group that was just spawned.
    pub fn new() -> (cache: Self)
        ensures
            cache@ is None,
    {
        StatusCache { status: None }
    }

    /// The captured status, if there is one.
    pub fn get(&self) -> (status: Option<ExitStatus>)
        ensures
            status == self@,
    {
        self.status
    }

    /// What to do when the group's status is asked for.
    pub fn plan(&self) -> (plan: WaitPlan)
        ensures
            plan == plan_for(self@),
    {
        match self.status {
            Some(status) => WaitPlan::Return { status },
            None => WaitPlan::Reap,
        }
    }

    /// Whether the group can still be addressed: a group whose status was
    /// captured has exited, and to kill or signal it is an invalid operation.
    pub fn check_running(&self) -> (res: Result<(), GroupError>)
        ensures
            res == match self@ {
                Some(_) => Err::<(), GroupError>(GroupError::InvalidOperation),
                None => Ok::<(), GroupError>(()),
            },
    {
        match self.status {
            Some(_) => Err(GroupError::InvalidOperation),
            None => Ok(()),
        }
    }

    /// Takes in what a blocking reap came back with. A status fills the
    /// empty cache; a failure leaves it empty, so that the wait can be tried
    /// again. A cache that holds a status keeps it and answers with it.
    pub fn record_wait(&mut self, reaped: Result<ExitStatus, GroupError>) -> (res: Result<
        ExitStatus,
        GroupError,
    >)
        ensures
            final(self)@ == capture(
                old(self)@,
                match reaped {
                    Ok(status) => Some(status),
                    Err(_) => None,
                },
            ),
            res == match old(self)@ {
                Some(status) => Ok(status),
                None => reaped,
            },
    {
        match self.status {
            Some(status) => Ok(status),
            None => {
                match reaped {
                    Ok(status) => {
                        self.status = Some(status);
                    },
                    Err(_) => {},
                }
                reaped
            },
        }
    }

    /// Takes in what a poll came back with. A status fills the empty cache;
    /// "not yet exited" and a failure leave it empty. A cache that holds a
    /// status keeps it and answers with it.
    pub fn record_poll(&mut self, polled: Result<Option<ExitStatus>, GroupError>) -> (res: Result<
        Option<ExitStatus>,
        GroupError,
    >)
        ensures
            final(self)@ == capture(
                old(self)@,
                match polled {
                    Ok(observed) => observed,
                    Err(_) => None,
                },
            ),
            res == match old(self)@ {
                Some(status) => Ok(Some(status)),
                None => polled,
            },
    {
        match self.status {
            Some(status) => Ok(Some(status)),
            None => {
                match polled {
                    Ok(Some(status)) => {
                        self.status = Some(status);
                    },
                    _ => {},
                }
                polled
            },
        }
    }
}

/// A handle's state as a mathematical value: the reaper's state and the
/// cached status.
pub struct GroupState {
    pub reaper: ReaperState,
    pub cached: Option<ExitStatus>,
}

impl GroupState {
    /// A call of `wait` in this state may answer `res` and leave the state `next`.
    ///
    /// With a cached status the answer is that status and nothing changes.
    /// Without one the group is reaped by a blocking wait: the group keeps
    /// its identity, the reaper ends where some run of events takes it, the
    /// answer is what the run's verdict means to a blocking wait, and exactly
    /// a status is cached. The only failures are that of the wait, and the
    /// internal one of a blocking wait that came back with nothing.
    pub open spec fn waits(self, res: Result<ExitStatus, GroupError>, next: GroupState) -> bool {
        match self.cached {
            Some(status) => res == Ok::<ExitStatus, GroupError>(status) && next == self,
            None => {
                &&& next.reaper.leader == self.reaper.leader
                &&& res matches Err(error) ==> error is Wait || error is Internal
                &&& exists|events: Seq<WaitEvent>|
                    waited_through(self.reaper, events, next.reaper, res)
                &&& next.cached == match res {
                    Ok(status) => Some(status),
                    Err(_) => None,
                }
            },
        }
    }

    /// A call of `try_wait` in this state may answer `res` and leave the state `next`.
    ///
    /// With a cached status the answer is that status and nothing changes.
    /// Without one the group is polled once: the group keeps its identity,
    /// the reaper ends where some run of events takes it, the answer is what
    /// the run's verdict means to a poll, and exactly a status is cached. The
    /// only failure is that of the wait.
    pub open spec fn polls(
        self,
        res: Result<Option<ExitStatus>, GroupError>,
        next: GroupState,
    ) -> bool {
        match self.cached {
            Some(status) => res == Ok::<Option<ExitStatus>, GroupError>(Some(status)) && next
                == self,
            None => {
                &&& next.reaper.leader == self.reaper.leader
                &&& res matches Err(error) ==> error is Wait
                &&& exists|events: Seq<WaitEvent>|
                    polled_through(self.reaper, events, next.reaper, res)
                &&& next.cached == match res {
                    Ok(observed) => observed,
                    Err(_) => None,
                }
            },
        }
    }
}

impl GroupState {
    /// A call of `kill` or `signal` in this state may answer `res` and leave
    /// the state `next`.
    ///
    /// Nothing changes in either case: sending a signal neither waits nor
    /// captures a status. With a cached status the group has exited, and the
    /// answer is that the operation is invalid. Without one the answer is
    /// what some outcome of the sending means.
    pub open spec fn signals(self, res: Result<(), GroupError>, next: GroupState) -> bool {
        &&& next == self
        &&& match self.cached {
            Some(_) => res == Err::<(), GroupError>(GroupError::InvalidOperation),
            None => exists|outcome: SignalOutcome| res == #[trigger] signal_result(outcome),
        }
    }
}

/// A running or exited process group.
#[derive(Debug)]
pub struct GroupChild {
    imp: ChildImp,
    exitstatus: StatusCache,
}

impl View for GroupChild {
    type V = GroupState;

    closed spec fn view(&self) -> GroupState {
        GroupState { reaper: self.imp@, cached: self.exitstatus@ }
    }
}

impl GroupChild {
    /// The handle of the group led by the freshly spawned process `pid`.
    pub fn new(pid: u32) -> (child: Self)
        requires
            GroupReaper::spec_accepts(pid),
        ensures
            child@ == (GroupState {
                reaper: ReaperState { leader: pid as int, candidate: None },
                cached: None,
            }),
    {
        GroupChild { imp: ChildImp::new(pid), exitstatus: StatusCache::new() }
    }

    /// The group's identity, which stays what it was at spawn.
    pub fn id(&self) -> (pid: u32)
        ensures
            pid == self@.reaper.leader,
            GroupReaper::spec_accepts(pid),
    {
        self.imp.id()
    }

    /// The status that was captured, if any; nothing is asked of the
    /// operating system.
    pub fn exit_status(&self) -> (status: Option<ExitStatus>)
        ensures
            status == self@.cached,
    {
        self.exitstatus.get()
    }

    /// What `wait` and `try_wait` will do next: repeat the captured status, or
    /// reap. Before a reaping `wait` the caller closes the leader's standard
    /// input, so that a leader which reads it does not wedge the wait.
    pub fn plan(&self) -> (plan: WaitPlan)
        ensures
            plan == plan_for(self@.cached),
    {
        self.exitstatus.plan()
    }

    /// Gives up the handle and hands back the leader's process identifier.
    /// The group is left as it is: nothing is sent to it, nothing is reaped.
    pub fn into_inner(self) -> (pid: u32)
        ensures
            pid == self@.reaper.leader,
            GroupReaper::spec_accepts(pid),
    {
        self.imp.into_inner()
    }

    /// Forces every member of the group to end. Does not wait for that.
    ///
    /// A group whose status was captured has exited: the call is refused as
    /// an invalid operation and nothing is sent.
    pub fn kill(&mut self) -> (res: Result<(), GroupError>)
        ensures
            old(self)@.signals(res, final(self)@),
    {
        match self.exitstatus.check_running() {
            Err(error) => Err(error),
            Ok(_) => self.imp.kill(),
        }
    }

    /// Waits until the whole group has exited, and answers with the status of
    /// its leader. Once a status was answered, every later call repeats it.
    pub fn wait(&mut self) -> (res: Result<ExitStatus, GroupError>)
        ensures
            old(self)@.waits(res, final(self)@),
    {
        match self.exitstatus.plan() {
            WaitPlan::Return { status } => Ok(status),
            WaitPlan::Reap => {
                let reaped = self.imp.wait();
                self.exitstatus.record_wait(reaped)
            },
        }
    }

    /// Answers with the leader's status if the whole group has exited, and
    /// with `None` if it has not. Never blocks.
    pub fn try_wait(&mut self) -> (res: Result<Option<ExitStatus>, GroupError>)
        ensures
            old(self)@.polls(res, final(self)@),
    {
        match self.exitstatus.plan() {
            WaitPlan::Return { status } => Ok(Some(status)),
            WaitPlan::Reap => {
                let polled = self.imp.try_wait();
                self.exitstatus.record_poll(polled)
            },
        }
    }

    /// Ends the handle: waits as `wait` does and puts the status together
    /// with what the caller drained from the two output streams. A failed
    /// drain is passed on; the bytes read so far are dropped with it.
    pub fn wait_with_output(
        self,
        drained: Result<(Vec<u8>, Vec<u8>), GroupError>,
    ) -> (res: Result<Output, GroupError>)
        ensures
            match drained {
                Err(error) => res == Err::<Output, GroupError>(error),
                Ok((stdout, stderr)) => exists|
                    status: Result<ExitStatus, GroupError>,
                    next: GroupState,
                |
                    #![trigger self@.waits(status, next)]
                    self@.waits(status, next) && match status {
                        Err(error) => res == Err::<Output, GroupError>(error),
                        Ok(status) => res matches Ok(output) && output.status == status
                            && output.stdout == stdout && output.stderr == stderr,
                    },
            },
    {
        let mut child = self;
        match drained {
            Err(error) => Err(error),
            Ok((stdout, stderr)) => {
                let waited = child.wait();
                assert(self@.waits(waited, child@));
                match waited {
                    Err(error) => Err(error),
                    Ok(status) => Ok(Output { status, stdout, stderr }),
                }
            },
        }
    }
}

impl UnixChildExt for GroupChild {
    /// Sends the signal numbered `signal` to every member of the group.
    ///
    /// A group whose status was captured has exited: the call is refused as
    /// an invalid operation and nothing is sent.
    fn signal(&mut self, signal: i32) -> (res: Result<(), GroupError>)
        ensures
            old(self)@.signals(res, final(self)@),
    {
        match self.exitstatus.check_running() {
            Err(error) => Err(error),
            Ok(_) => self.imp.signal_imp(signal),
        }
    }
}

/// Waiting is idempotent. Once `wait` has answered with a status, the handle
/// plans to repeat it without reaping, and the next `wait` answers with the
/// identical status and leaves the handle as it is.
pub proof fn law_wait_idempotent(
    start: GroupState,
    first: Result<ExitStatus, GroupError>,
    mid: GroupState,
    second: Result<ExitStatus, GroupError>,
    end: GroupState,
)
    requires
        start.waits(first, mid),
        first is Ok,
        mid.waits(second, end),
    ensures
        plan_for(mid.cached) == (WaitPlan::Return { status: first->Ok_0 }),
        second == first,
        end == mid,
{
}

/// A status that `try_wait` has answered is repeated by every later `wait`
/// and `try_wait`, which leave the handle as it is.
pub proof fn law_poll_then_wait(
    start: GroupState,
    polled: Result<Option<ExitStatus>, GroupError>,
    mid: GroupState,
    waited: Result<ExitStatus, GroupError>,
    end: GroupState,
)
    requires
        start.polls(polled, mid),
        polled matches Ok(Some(_)),
        mid.waits(waited, end),
    ensures
        polled == Ok::<Option<ExitStatus>, GroupError>(Some(waited->Ok_0)),
        waited is Ok,
        end == mid,
{
}

/// Once a status is captured, the handle only repeats itself: `wait` and
/// `try_wait` answer with that status, `kill` and `signal` are refused as
/// invalid, and none of them changes the handle.
pub proof fn law_captured_is_final(
    state: GroupState,
    status: ExitStatus,
    waited: Result<ExitStatus, GroupError>,
    after_wait: GroupState,
    polled: Result<Option<ExitStatus>, GroupError>,
    after_poll: GroupState,
    signalled: Result<(), GroupError>,
    after_signal: GroupState,
)
    requires
        state.cached == Some(status),
        state.waits(waited, after_wait),
        state.polls(polled, after_poll),
        state.signals(signalled, after_signal),
    ensures
        waited == Ok::<ExitStatus, GroupError>(status),
        polled == Ok::<Option<ExitStatus>, GroupError>(Some(status)),
        signalled == Err::<(), GroupError>(GroupError::InvalidOperation),
        after_wait == state,
        after_poll == state,
        after_signal == state,
{
}

/// A kill does not wait: it captures no status, so the group's end is
/// observed only by a later `wait` or `try_wait`.
pub proof fn law_kill_captures_nothing(
    state: GroupState,
    res: Result<(), GroupError>,
    next: GroupState,
)
    requires
        state.cached is None,
        state.signals(res, next),
    ensures
        next.cached is None,
        plan_for(next.cached) == WaitPlan::Reap,
{
}

/// A failed wait captures nothing: the handle still plans to reap, so the
/// wait can be tried again.
pub proof fn law_failed_wait_retryable(
    start: GroupState,
    res: Result<ExitStatus, GroupError>,
    next: GroupState,
)
    requires
        start.cached is None,
        start.waits(res, next),
        res is Err,
    ensures
        plan_for(next.cached) == WaitPlan::Reap,
{
}

/// Polling before exit: a `try_wait` on a group without captured status
/// that meets the report "no member is ready" answers "not yet exited",
/// which is no error, and captures nothing; and it can do nothing else.
pub proof fn law_try_wait_before_exit(
    start: GroupState,
    res: Result<Option<ExitStatus>, GroupError>,
    end: ReaperState,
)
    requires
        start.cached is None,
    ensures
        start.polls(Ok(None), start),
        polled_through(start.reaper, seq![WaitEvent::StillAlive], end, res) ==> res == Ok::<
            Option<ExitStatus>,
            GroupError,
        >(None) && end == start.reaper,
{
    law_poll_before_exit(start.reaper);
    assert(polled_through(start.reaper, seq![WaitEvent::StillAlive], start.reaper, Ok(None)));
}

} // verus!
