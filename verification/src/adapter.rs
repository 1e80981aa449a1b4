//! The cooperative-scheduling adapter: how a task waits for a group without
//! holding up the scheduler it runs on.
//!
//! Reaping a group blocks. A cooperative task therefore first asks without
//! blocking; only when a small number of such polls has found members left
//! is the blocking reap handed to a worker thread, and the task suspended
//! until the worker is done. The adapter counts and decides; the caller
//! polls, offloads and suspends.

use crate::child::windows::PortStep;
use crate::error::GroupError;
use crate::reaper::ReapStep;
use crate::status::ExitStatus;
use vstd::prelude::*;

verus! {

/// How many polls may find the group running before the wait is offloaded.
pub const MAX_RETRY_ATTEMPT: u8 = 10;

/// What one reap attempt found.
#[derive(Clone, Copy, Debug, PartialEq, Eq, Structural)]
pub enum Probe {
    /// No member of the group is left.
    Emptied,
    /// Members are left.
    Pending,
    /// The attempt failed.
    Failed { error: GroupError },
}

/// The step the caller performs next.
#[derive(Clone, Copy, Debug, PartialEq, Eq, Structural)]
pub enum AdapterAction {
    /// Reap without blocking, on the task's own thread.
    Poll,
    /// Hand the blocking reap to a worker thread and suspend the task until
    /// the worker is done.
    Offload,
    /// The group is gone: resume the task with the leader's status.
    Finish,
    /// The wait failed.
    Fail { error: GroupError },
}

/// Where a wait stands.
#[derive(Clone, Copy, Debug, PartialEq, Eq, Structural)]
pub enum AdapterPhase {
    /// Polling; `polls` of them found members left.
    Polling { polls: u8 },
    /// The blocking reap is with a worker.
    Offloaded,
    /// The group is gone.
    Finished,
    /// The wait failed.
    Failed { error: GroupError },
}

impl AdapterPhase {
    /// The phase in which every wait starts: nothing polled yet.
    pub open spec fn initial() -> AdapterPhase {
        AdapterPhase::Polling { polls: 0 }
    }

    /// The step that the caller performs in this phase.
    pub open spec fn pending(self) -> AdapterAction {
        match self {
            AdapterPhase::Polling { .. } => AdapterAction::Poll,
            AdapterPhase::Offloaded => AdapterAction::Offload,
            AdapterPhase::Finished => AdapterAction::Finish,
            AdapterPhase::Failed { error } => AdapterAction::Fail { error },
        }
    }

    /// The phase after the pending step found `probe`.
    ///
    /// A poll that finds members left is counted, and the poll that brings
    /// the count to the limit is the last one. A blocking reap that comes
    /// back with members left has broken its word: that is an internal
    /// failure, not "no status yet".
    pub open spec fn after(self, probe: Probe) -> AdapterPhase {
        match (self, probe) {
            (AdapterPhase::Finished, _) => self,
            (AdapterPhase::Failed { .. }, _) => self,
            (_, Probe::Emptied) => AdapterPhase::Finished,
            (_, Probe::Failed { error }) => AdapterPhase::Failed { error },
            (AdapterPhase::Polling { polls }, Probe::Pending) => if polls + 1 >= MAX_RETRY_ATTEMPT {
                AdapterPhase::Offloaded
            } else {
                AdapterPhase::Polling { polls: (polls + 1) as u8 }
            },
            (AdapterPhase::Offloaded, Probe::Pending) => AdapterPhase::Failed {
                error: GroupError::Internal,
            },
        }
    }

    /// The phase after a run of steps that found `probes`.
    pub open spec fn run(self, probes: Seq<Probe>) -> AdapterPhase
        decreases probes.len(),
    {
        if probes.len() == 0 {
            self
        } else {
            self.run(probes.drop_last()).after(probes.last())
        }
    }
}

/// Every probe of the run found members left.
pub open spec fn all_pending(probes: Seq<Probe>) -> bool {
    forall|i: int| 0 <= i < probes.len() ==> #[trigger] probes[i] == Probe::Pending
}

/// What a verdict of the session-based reaper is as a probe.
pub open spec fn spec_probe_of(step: ReapStep) -> Probe {
    match step {
        ReapStep::Emptied { .. } => Probe::Emptied,
        ReapStep::Running => Probe::Pending,
        ReapStep::Continue => Probe::Pending,
        ReapStep::Failed { error } => Probe::Failed { error },
    }
}

/// What a verdict of the session-based reaper is as a probe.
#[verifier::when_used_as_spec(spec_probe_of)]
pub fn probe_of(step: ReapStep) -> (probe: Probe)
    ensures
        probe == spec_probe_of(step),
{
    match step {
        ReapStep::Emptied { .. } => Probe::Emptied,
        ReapStep::Running => Probe::Pending,
        ReapStep::Continue => Probe::Pending,
        ReapStep::Failed { error } => Probe::Failed { error },
    }
}

/// What a verdict of the completion port is as a probe.
pub fn probe_of_port(step: PortStep) -> (probe: Probe)
    ensures
        probe == match step {
            PortStep::Emptied => Probe::Emptied,
            PortStep::Running => Probe::Pending,
            PortStep::Continue => Probe::Pending,
            PortStep::Failed { error } => Probe::Failed { error },
        },
{
    match step {
        PortStep::Emptied => Probe::Emptied,
        PortStep::Running => Probe::Pending,
        PortStep::Continue => Probe::Pending,
        PortStep::Failed { error } => Probe::Failed { error },
    }
}

/// What a cooperative poll of a group answers after the reaper's verdict.
/// An emptied group and a failure are answers; with members left there is
/// none here, and the leader's own handle is asked instead.
pub fn poll_answer(step: ReapStep) -> (answer: Option<Result<Option<ExitStatus>, GroupError>>)
    ensures
        answer == match step {
            ReapStep::Emptied { leader } => Some(Ok::<Option<ExitStatus>, GroupError>(leader)),
            ReapStep::Failed { error } => Some(Err::<Option<ExitStatus>, GroupError>(error)),
            ReapStep::Running => None,
            ReapStep::Continue => None,
        },
{
    match step {
        ReapStep::Emptied { leader } => Some(Ok(leader)),
        ReapStep::Failed { error } => Some(Err(error)),
        ReapStep::Running => None,
        ReapStep::Continue => None,
    }
}

/// The adapter of one wait.
#[derive(Debug)]
pub struct WaitAdapter {
    phase: AdapterPhase,
}

impl View for WaitAdapter {
    type V = AdapterPhase;

    closed spec fn view(&self) -> AdapterPhase {
        self.phase
    }
}

impl WaitAdapter {
    /// While polling, the count of polls is below the limit.
    #[verifier::type_invariant]
    spec fn valid(&self) -> bool {
        self.phase matches AdapterPhase::Polling { polls } ==> polls < MAX_RETRY_ATTEMPT
    }

    /// The adapter of a wait that begins. Its first step is a poll.
    pub fn new() -> (adapter: Self)
        ensures
            adapter@ == AdapterPhase::initial(),
            adapter@.pending() == AdapterAction::Poll,
    {
        WaitAdapter { phase: AdapterPhase::Polling { polls: 0 } }
    }

    /// Where the wait stands.
    pub fn phase(&self) -> (phase: AdapterPhase)
        ensures
            phase == self@,
    {
        self.phase
    }

    /// The step to perform next.
    pub fn pending(&self) -> (action: AdapterAction)
        ensures
            action == self@.pending(),
    {
        match self.phase {
            AdapterPhase::Polling { .. } => AdapterAction::Poll,
            AdapterPhase::Offloaded => AdapterAction::Offload,
            AdapterPhase::Finished => AdapterAction::Finish,
            AdapterPhase::Failed { error } => AdapterAction::Fail { error },
        }
    }

    /// Takes in what the pending step found.
    pub fn advance(&mut self, probe: Probe)
        ensures
            final(self)@ == old(self)@.after(probe),
    {
        proof {
            use_type_invariant(&*self);
        }
        match self.phase {
            AdapterPhase::Finished => {},
            AdapterPhase::Failed { .. } => {},
            AdapterPhase::Polling { polls } => {
                match probe {
                    Probe::Emptied => {
                        self.phase = AdapterPhase::Finished;
                    },
                    Probe::Failed { error } => {
                        self.phase = AdapterPhase::Failed { error };
                    },
                    Probe::Pending => {
                        if polls + 1 >= MAX_RETRY_ATTEMPT {
                            self.phase = AdapterPhase::Offloaded;
                        } else {
                            self.phase = AdapterPhase::Polling { polls: polls + 1 };
                        }
                    },
                }
            },
            AdapterPhase::Offloaded => {
                match probe {
                    Probe::Emptied => {
                        self.phase = AdapterPhase::Finished;
                    },
                    Probe::Failed { error } => {
                        self.phase = AdapterPhase::Failed { error };
                    },
                    Probe::Pending => {
                        self.phase = AdapterPhase::Failed { error: GroupError::Internal };
                    },
                }
            },
        }
    }
}

/// What holds of a wait after any run of steps, stated for the induction
/// that the laws below rest on.
spec fn on_course(probes: Seq<Probe>) -> bool {
    match AdapterPhase::initial().run(probes) {
        AdapterPhase::Polling { polls } => polls == probes.len() && polls < MAX_RETRY_ATTEMPT
            && all_pending(probes),
        AdapterPhase::Offloaded => probes.len() == MAX_RETRY_ATTEMPT && all_pending(probes),
        AdapterPhase::Finished => true,
        AdapterPhase::Failed { .. } => true,
    }
}

proof fn lemma_on_course(probes: Seq<Probe>)
    ensures
        on_course(probes),
        probes.len() > MAX_RETRY_ATTEMPT ==> AdapterPhase::initial().run(probes) is Finished
            || AdapterPhase::initial().run(probes) is Failed,
    decreases probes.len(),
{
    if probes.len() > 0 {
        let earlier = probes.drop_last();
        lemma_on_course(earlier);
        if all_pending(earlier) && probes.last() == Probe::Pending {
            assert forall|i: int| 0 <= i < probes.len() implies #[trigger] probes[i]
                == Probe::Pending by {
                if i < earlier.len() {
                    assert(earlier[i] == probes[i]);
                }
            }
        }
    }
}

/// The blocking reap goes to a worker only after the full number of polls,
/// neither sooner nor later, has found members left: a group that exits
/// quickly never costs a worker thread.
pub proof fn law_offload_after_polls(probes: Seq<Probe>)
    requires
        AdapterPhase::initial().run(probes).pending() == AdapterAction::Offload,
    ensures
        probes.len() == MAX_RETRY_ATTEMPT,
        all_pending(probes),
{
    lemma_on_course(probes);
}

/// As long as the adapter asks for a poll, fewer polls than the limit were
/// made and all of them found members left.
pub proof fn law_polls_bounded(probes: Seq<Probe>)
    requires
        AdapterPhase::initial().run(probes).pending() == AdapterAction::Poll,
    ensures
        probes.len() < MAX_RETRY_ATTEMPT,
        all_pending(probes),
{
    lemma_on_course(probes);
}

/// Every wait is settled after at most the limit of polls and one offloaded
/// reap: the adapter never asks for more than that.
pub proof fn law_settles(probes: Seq<Probe>)
    requires
        probes.len() > MAX_RETRY_ATTEMPT,
    ensures
        AdapterPhase::initial().run(probes).pending() is Finish || AdapterPhase::initial().run(
            probes,
        ).pending() is Fail,
{
    lemma_on_course(probes);
}

} // verus!
