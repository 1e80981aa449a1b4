//! Establishing a group on the kernel-object backend.
//!
//! On this backend a group is a job object, the container that every member
//! is assigned to, with a completion port, the channel on which the job
//! reports. There is no hook that runs in a new process before its program
//! does, so the order of the steps carries the guarantee: the job and the
//! port are created and tied together first, the process is spawned
//! suspended, it is assigned to the job, and only then are its threads
//! resumed. A process that ran before it was assigned could spawn children
//! that escape the group.
//!
//! The establisher makes no system call. It names the next step
//! ([`Establisher::pending`]); the caller performs it and reports the answer
//! ([`Establisher::advance`]).

use crate::error::GroupError;
use vstd::prelude::*;

verus! {

/// The process creation flag that starts a process with its first thread
/// suspended.
pub const CREATE_SUSPENDED: u32 = 0x0000_0004;

/// The job limit that terminates every member when the last handle of the
/// job is closed.
pub const JOB_OBJECT_LIMIT_KILL_ON_JOB_CLOSE: u32 = 0x0000_2000;

/// The thread access right that resuming a thread asks for.
pub const THREAD_SUSPEND_RESUME: u32 = 0x0002;

/// The two kernel objects of a group, each handle as the address it holds.
#[derive(Clone, Copy, Debug, PartialEq, Eq, Structural)]
pub struct JobPort {
    pub job: usize,
    pub completion_port: usize,
}

/// One entry of a snapshot of the system's threads.
#[derive(Clone, Copy, Debug, PartialEq, Eq, Structural)]
pub struct ThreadEntry {
    pub thread_id: u32,
    pub owner_process_id: u32,
}

/// What has to be given back when a setup is abandoned: the handles to
/// close, and the suspended process to terminate.
#[derive(Clone, Copy, Debug, PartialEq, Eq, Structural)]
pub struct Release {
    pub job: Option<usize>,
    pub completion_port: Option<usize>,
    pub process: Option<usize>,
}

/// The answer of a call that returns a handle: a null handle is the failure
/// that `last_error` explains.
pub open spec fn spec_res_null(handle: usize, last_error: i32) -> Result<usize, i32> {
    if handle == 0 {
        Err(last_error)
    } else {
        Ok(handle)
    }
}

/// The answer of a call that returns a truth value: zero is the failure that
/// `last_error` explains.
pub open spec fn spec_res_bool(ret: i32, last_error: i32) -> Result<(), i32> {
    if ret == 0 {
        Err(last_error)
    } else {
        Ok(())
    }
}

/// The answer of a call that returns a count: the count of all ones is the
/// failure that `last_error` explains.
pub open spec fn spec_res_neg(ret: u32, last_error: i32) -> Result<u32, i32> {
    if ret == u32::MAX {
        Err(last_error)
    } else {
        Ok(ret)
    }
}

#[verifier::when_used_as_spec(spec_res_null)]
pub fn res_null(handle: usize, last_error: i32) -> (res: Result<usize, i32>)
    ensures
        res == spec_res_null(handle, last_error),
{
    if handle == 0 {
        Err(last_error)
    } else {
        Ok(handle)
    }
}

#[verifier::when_used_as_spec(spec_res_bool)]
pub fn res_bool(ret: i32, last_error: i32) -> (res: Result<(), i32>)
    ensures
        res == spec_res_bool(ret, last_error),
{
    if ret == 0 {
        Err(last_error)
    } else {
        Ok(())
    }
}

#[verifier::when_used_as_spec(spec_res_neg)]
pub fn res_neg(ret: u32, last_error: i32) -> (res: Result<u32, i32>)
    ensures
        res == spec_res_neg(ret, last_error),
{
    if ret == u32::MAX {
        Err(last_error)
    } else {
        Ok(ret)
    }
}

/// The limit flags of a job: members die with the job's last handle exactly
/// if the group is to be killed when its handle is dropped.
pub open spec fn spec_limit_flags(kill_on_drop: bool) -> u32 {
    if kill_on_drop {
        JOB_OBJECT_LIMIT_KILL_ON_JOB_CLOSE
    } else {
        0
    }
}

#[verifier::when_used_as_spec(spec_limit_flags)]
pub fn limit_flags(kill_on_drop: bool) -> (flags: u32)
    ensures
        flags == spec_limit_flags(kill_on_drop),
{
    if kill_on_drop {
        JOB_OBJECT_LIMIT_KILL_ON_JOB_CLOSE
    } else {
        0
    }
}

/// The creation flags a group's leader is spawned with: the caller's, and
/// always the one that keeps the process suspended.
pub fn spawn_flags(creation_flags: u32) -> (flags: u32)
    ensures
        flags == creation_flags | CREATE_SUSPENDED,
        flags & CREATE_SUSPENDED == CREATE_SUSPENDED,
{
    assert((creation_flags | 4) & 4 == 4) by (bit_vector);
    creation_flags | CREATE_SUSPENDED
}

/// The identifiers of the threads that `pid` owns, in the snapshot's order.
pub open spec fn owned_threads(entries: Seq<ThreadEntry>, pid: u32) -> Seq<u32>
    decreases entries.len(),
{
    if entries.len() == 0 {
        Seq::empty()
    } else {
        let earlier = owned_threads(entries.drop_last(), pid);
        if entries.last().owner_process_id == pid {
            earlier.push(entries.last().thread_id)
        } else {
            earlier
        }
    }
}

/// Picks from a snapshot of all threads of the system those of the process
/// `pid`: the threads to resume once the process is in its job.
pub fn threads_of(entries: &Vec<ThreadEntry>, pid: u32) -> (threads: Vec<u32>)
    ensures
        threads@ == owned_threads(entries@, pid),
{
    let mut threads: Vec<u32> = Vec::new();
    let mut i: usize = 0;
    while i < entries.len()
        invariant
            i <= entries.len(),
            threads@ == owned_threads(entries@.take(i as int), pid),
        decreases entries.len() - i,
    {
        let entry = entries[i];
        assert(entries@.take(i + 1).drop_last() =~= entries@.take(i as int));
        if entry.owner_process_id == pid {
            threads.push(entry.thread_id);
        }
        i = i + 1;
    }
    assert(entries@.take(i as int) =~= entries@);
    threads
}

/// How far a setup has come.
#[derive(Clone, Copy, Debug, PartialEq, Eq, Structural)]
pub enum SetupPhase {
    /// The job object is to be created.
    Job,
    /// The completion port is to be created.
    Port,
    /// The job is to be told to report on the port.
    Associate,
    /// The job's limits are to be set.
    Limits,
    /// The leader is to be spawned, suspended.
    Spawn,
    /// The suspended leader is to be assigned to the job.
    Assign,
    /// The threads of the system are to be listed.
    Threads,
    /// The leader's threads are being resumed, one after the other.
    Resume,
    /// The group is established.
    Established,
    /// The setup was abandoned.
    Failed { error: GroupError, release: Release },
}

/// The step the caller performs next.
#[derive(Clone, Copy, Debug, PartialEq, Eq, Structural)]
pub enum SetupAction {
    /// Create a job object.
    CreateJob,
    /// Create a completion port.
    CreatePort,
    /// Tell `job` to report on `completion_port`, with the job's own handle as key.
    Associate { job: usize, completion_port: usize },
    /// Set the limit flags of `job`.
    SetLimits { job: usize, limit_flags: u32 },
    /// Spawn the leader with these creation flags.
    Spawn { creation_flags: u32 },
    /// Assign `process` to `job`.
    Assign { job: usize, process: usize },
    /// Take a snapshot of all threads of the system and list its entries.
    ListThreads,
    /// Resume the thread with this identifier.
    Resume { thread: u32 },
    /// The group stands: these are its kernel objects.
    Finish { handles: JobPort },
    /// Give back what `release` names and report `error`.
    Abort { error: GroupError, release: Release },
}

/// The answer to the pending step, as a mathematical value.
pub enum SetupInput {
    /// A call that creates a kernel object returned `handle`.
    Handle { handle: usize, last_error: i32 },
    /// A call that reports success as a truth value returned `ret`.
    Flag { ret: i32, last_error: i32 },
    /// The leader was spawned: its process handle and identifier.
    Spawned { process: usize, pid: u32 },
    /// The entries of the thread snapshot.
    Threads { entries: Seq<ThreadEntry> },
    /// The thread was resumed and its handle closed.
    Resumed,
    /// The step failed with this error number.
    Failed { code: i32 },
}

/// The answer to the pending step.
#[derive(Debug)]
pub enum SetupEvent {
    /// A call that creates a kernel object returned `handle`.
    Handle { handle: usize, last_error: i32 },
    /// A call that reports success as a truth value returned `ret`.
    Flag { ret: i32, last_error: i32 },
    /// The leader was spawned: its process handle and identifier.
    Spawned { process: usize, pid: u32 },
    /// The entries of the thread snapshot.
    Threads { entries: Vec<ThreadEntry> },
    /// The thread was resumed and its handle closed.
    Resumed,
    /// The step failed with this error number.
    Failed { code: i32 },
}

impl View for SetupEvent {
    type V = SetupInput;

    open spec fn view(&self) -> SetupInput {
        match *self {
            SetupEvent::Handle { handle, last_error } => SetupInput::Handle { handle, last_error },
            SetupEvent::Flag { ret, last_error } => SetupInput::Flag { ret, last_error },
            SetupEvent::Spawned { process, pid } => SetupInput::Spawned { process, pid },
            SetupEvent::Threads { entries } => SetupInput::Threads { entries: entries@ },
            SetupEvent::Resumed => SetupInput::Resumed,
            SetupEvent::Failed { code } => SetupInput::Failed { code },
        }
    }
}

/// A setup as a mathematical value.
pub struct SetupState {
    pub phase: SetupPhase,
    pub kill_on_drop: bool,
    pub creation_flags: u32,
    pub job: usize,
    pub completion_port: usize,
    pub process: usize,
    pub pid: u32,
    /// The leader's threads, as the snapshot listed them.
    pub threads: Seq<u32>,
    /// How many of them have been resumed.
    pub resumed: nat,
}

impl SetupState {
    /// The setup before its first step.
    pub open spec fn initial(kill_on_drop: bool, creation_flags: u32) -> SetupState {
        SetupState {
            phase: SetupPhase::Job,
            kill_on_drop,
            creation_flags,
            job: 0,
            completion_port: 0,
            process: 0,
            pid: 0,
            threads: Seq::empty(),
            resumed: 0,
        }
    }

    /// The step that the caller performs in this state.
    pub open spec fn pending(self) -> SetupAction {
        match self.phase {
            SetupPhase::Job => SetupAction::CreateJob,
            SetupPhase::Port => SetupAction::CreatePort,
            SetupPhase::Associate => SetupAction::Associate {
                job: self.job,
                completion_port: self.completion_port,
            },
            SetupPhase::Limits => SetupAction::SetLimits {
                job: self.job,
                limit_flags: spec_limit_flags(self.kill_on_drop),
            },
            SetupPhase::Spawn => SetupAction::Spawn {
                creation_flags: self.creation_flags | CREATE_SUSPENDED,
            },
            SetupPhase::Assign => SetupAction::Assign { job: self.job, process: self.process },
            SetupPhase::Threads => SetupAction::ListThreads,
            SetupPhase::Resume => SetupAction::Resume { thread: self.threads[self.resumed as int] },
            SetupPhase::Established => SetupAction::Finish {
                handles: JobPort { job: self.job, completion_port: self.completion_port },
            },
            SetupPhase::Failed { error, release } => SetupAction::Abort { error, release },
        }
    }

    /// What the setup holds in this state and would have to give back.
    pub open spec fn holding(self) -> Release {
        match self.phase {
            SetupPhase::Job => Release { job: None, completion_port: None, process: None },
            SetupPhase::Port => Release {
                job: Some(self.job),
                completion_port: None,
                process: None,
            },
            SetupPhase::Associate | SetupPhase::Limits | SetupPhase::Spawn => Release {
                job: Some(self.job),
                completion_port: Some(self.completion_port),
                process: None,
            },
            SetupPhase::Assign | SetupPhase::Threads | SetupPhase::Resume => Release {
                job: Some(self.job),
                completion_port: Some(self.completion_port),
                process: Some(self.process),
            },
            SetupPhase::Established => Release { job: None, completion_port: None, process: None },
            SetupPhase::Failed { release, .. } => release,
        }
    }

    /// This state in another phase.
    pub open spec fn to(self, phase: SetupPhase) -> SetupState {
        SetupState { phase, ..self }
    }

    /// The setup abandoned for `error`: all that it holds is to be released.
    pub open spec fn abandoned(self, error: GroupError) -> SetupState {
        self.to(SetupPhase::Failed { error, release: self.holding() })
    }

    /// The state after the pending step was answered with `input`.
    ///
    /// An established or abandoned setup stays as it is. A step that failed,
    /// by its own report or by the value it returned, abandons the setup with
    /// the step's error number. An answer that does not fit the pending step
    /// abandons it as an internal error.
    pub open spec fn after(self, input: SetupInput) -> SetupState {
        match (self.phase, input) {
            (SetupPhase::Established, _) => self,
            (SetupPhase::Failed { .. }, _) => self,
            (_, SetupInput::Failed { code }) => self.abandoned(GroupError::Setup { code }),
            (SetupPhase::Job, SetupInput::Handle { handle, last_error }) => match spec_res_null(
                handle,
                last_error,
            ) {
                Ok(job) => SetupState { job, ..self }.to(SetupPhase::Port),
                Err(code) => self.abandoned(GroupError::Setup { code }),
            },
            (SetupPhase::Port, SetupInput::Handle { handle, last_error }) => match spec_res_null(
                handle,
                last_error,
            ) {
                Ok(completion_port) => SetupState { completion_port, ..self }.to(
                    SetupPhase::Associate,
                ),
                Err(code) => self.abandoned(GroupError::Setup { code }),
            },
            (SetupPhase::Associate, SetupInput::Flag { ret, last_error }) => match spec_res_bool(
                ret,
                last_error,
            ) {
                Ok(_) => self.to(SetupPhase::Limits),
                Err(code) => self.abandoned(GroupError::Setup { code }),
            },
            (SetupPhase::Limits, SetupInput::Flag { ret, last_error }) => match spec_res_bool(
                ret,
                last_error,
            ) {
                Ok(_) => self.to(SetupPhase::Spawn),
                Err(code) => self.abandoned(GroupError::Setup { code }),
            },
            (SetupPhase::Spawn, SetupInput::Spawned { process, pid }) => SetupState {
                process,
                pid,
                ..self
            }.to(SetupPhase::Assign),
            (SetupPhase::Assign, SetupInput::Flag { ret, last_error }) => match spec_res_bool(
                ret,
                last_error,
            ) {
                Ok(_) => self.to(SetupPhase::Threads),
                Err(code) => self.abandoned(GroupError::Setup { code }),
            },
            (SetupPhase::Threads, SetupInput::Threads { entries }) => {
                let threads = owned_threads(entries, self.pid);
                SetupState { threads, resumed: 0, ..self }.to(
                    if threads.len() == 0 {
                        SetupPhase::Established
                    } else {
                        SetupPhase::Resume
                    },
                )
            },
            (SetupPhase::Resume, SetupInput::Resumed) => SetupState {
                resumed: self.resumed + 1,
                ..self
            }.to(
                if self.resumed + 1 >= self.threads.len() {
                    SetupPhase::Established
                } else {
                    SetupPhase::Resume
                },
            ),
            _ => self.abandoned(GroupError::Internal),
        }
    }

    /// The state after a run of steps that were answered with `inputs`.
    pub open spec fn run(self, inputs: Seq<SetupInput>) -> SetupState
        decreases inputs.len(),
    {
        if inputs.len() == 0 {
            self
        } else {
            self.run(inputs.drop_last()).after(inputs.last())
        }
    }

    /// The handle that the run's creation of a job object returned, if that
    /// step was reached and did not fail.
    pub open spec fn made_job(self, inputs: Seq<SetupInput>) -> Option<usize>
        decreases inputs.len(),
    {
        if inputs.len() == 0 {
            None
        } else {
            match inputs.last() {
                SetupInput::Handle { handle, .. } if handle != 0 && self.run(
                    inputs.drop_last(),
                ).pending() == SetupAction::CreateJob => Some(handle),
                _ => self.made_job(inputs.drop_last()),
            }
        }
    }

    /// The handle that the run's creation of a completion port returned, if
    /// that step was reached and did not fail.
    pub open spec fn made_port(self, inputs: Seq<SetupInput>) -> Option<usize>
        decreases inputs.len(),
    {
        if inputs.len() == 0 {
            None
        } else {
            match inputs.last() {
                SetupInput::Handle { handle, .. } if handle != 0 && self.run(
                    inputs.drop_last(),
                ).pending() == SetupAction::CreatePort => Some(handle),
                _ => self.made_port(inputs.drop_last()),
            }
        }
    }

    /// The process that the run spawned, if it came that far: its handle and
    /// its identifier.
    pub open spec fn spawned(self, inputs: Seq<SetupInput>) -> Option<(usize, u32)>
        decreases inputs.len(),
    {
        if inputs.len() == 0 {
            None
        } else {
            match inputs.last() {
                SetupInput::Spawned { process, pid } if self.run(inputs.drop_last()).pending()
                    is Spawn => Some((process, pid)),
                _ => self.spawned(inputs.drop_last()),
            }
        }
    }

    /// During the run the job was told to report on the port, with success.
    pub open spec fn tied(self, inputs: Seq<SetupInput>) -> bool
        decreases inputs.len(),
    {
        if inputs.len() == 0 {
            false
        } else {
            ||| self.tied(inputs.drop_last())
            ||| (self.run(inputs.drop_last()).pending() is Associate && (
            inputs.last() matches SetupInput::Flag { ret, .. } && ret != 0))
        }
    }

    /// During the run the spawned process was assigned to the job, with success.
    pub open spec fn assigned(self, inputs: Seq<SetupInput>) -> bool
        decreases inputs.len(),
    {
        if inputs.len() == 0 {
            false
        } else {
            ||| self.assigned(inputs.drop_last())
            ||| (self.run(inputs.drop_last()).pending() is Assign && (
            inputs.last() matches SetupInput::Flag { ret, .. } && ret != 0))
        }
    }

    /// The snapshot entries that the run's listing of threads returned.
    pub open spec fn listed(self, inputs: Seq<SetupInput>) -> Option<Seq<ThreadEntry>>
        decreases inputs.len(),
    {
        if inputs.len() == 0 {
            None
        } else {
            match inputs.last() {
                SetupInput::Threads { entries } if self.run(inputs.drop_last()).pending()
                    == SetupAction::ListThreads => Some(entries),
                _ => self.listed(inputs.drop_last()),
            }
        }
    }

    /// The threads that were resumed during the run, in the order in which
    /// they were resumed.
    pub open spec fn resumed_threads(self, inputs: Seq<SetupInput>) -> Seq<u32>
        decreases inputs.len(),
    {
        if inputs.len() == 0 {
            Seq::empty()
        } else {
            let earlier = self.resumed_threads(inputs.drop_last());
            match (self.run(inputs.drop_last()).pending(), inputs.last()) {
                (SetupAction::Resume { thread }, SetupInput::Resumed) => earlier.push(thread),
                _ => earlier,
            }
        }
    }
}

/// The establisher of one group on the kernel-object backend.
#[derive(Debug)]
pub struct Establisher {
    phase: SetupPhase,
    kill_on_drop: bool,
    creation_flags: u32,
    job: usize,
    completion_port: usize,
    process: usize,
    pid: u32,
    threads: Vec<u32>,
    resumed: usize,
}

impl View for Establisher {
    type V = SetupState;

    closed spec fn view(&self) -> SetupState {
        SetupState {
            phase: self.phase,
            kill_on_drop: self.kill_on_drop,
            creation_flags: self.creation_flags,
            job: self.job,
            completion_port: self.completion_port,
            process: self.process,
            pid: self.pid,
            threads: self.threads@,
            resumed: self.resumed as nat,
        }
    }
}

impl Establisher {
    /// While threads are being resumed, one of them is still to be resumed.
    #[verifier::type_invariant]
    spec fn valid(&self) -> bool {
        self.phase is Resume ==> self.resumed < self.threads.len()
    }

    /// A setup for a group that is, or is not, to be killed when its handle
    /// is dropped, and whose leader is spawned with the given creation flags.
    pub fn new(kill_on_drop: bool, creation_flags: u32) -> (establisher: Self)
        ensures
            establisher@ == SetupState::initial(kill_on_drop, creation_flags),
    {
        Establisher {
            phase: SetupPhase::Job,
            kill_on_drop,
            creation_flags,
            job: 0,
            completion_port: 0,
            process: 0,
            pid: 0,
            threads: Vec::new(),
            resumed: 0,
        }
    }

    /// The step to perform next.
    pub fn pending(&self) -> (action: SetupAction)
        ensures
            action == self@.pending(),
    {
        proof {
            use_type_invariant(self);
        }
        match self.phase {
            SetupPhase::Job => SetupAction::CreateJob,
            SetupPhase::Port => SetupAction::CreatePort,
            SetupPhase::Associate => SetupAction::Associate {
                job: self.job,
                completion_port: self.completion_port,
            },
            SetupPhase::Limits => SetupAction::SetLimits {
                job: self.job,
                limit_flags: limit_flags(self.kill_on_drop),
            },
            SetupPhase::Spawn => SetupAction::Spawn {
                creation_flags: spawn_flags(self.creation_flags),
            },
            SetupPhase::Assign => SetupAction::Assign { job: self.job, process: self.process },
            SetupPhase::Threads => SetupAction::ListThreads,
            SetupPhase::Resume => SetupAction::Resume { thread: self.threads[self.resumed] },
            SetupPhase::Established => SetupAction::Finish {
                handles: JobPort { job: self.job, completion_port: self.completion_port },
            },
            SetupPhase::Failed { error, release } => SetupAction::Abort { error, release },
        }
    }

    fn holding(&self) -> (release: Release)
        ensures
            release == self@.holding(),
    {
        match self.phase {
            SetupPhase::Job => Release { job: None, completion_port: None, process: None },
            SetupPhase::Port => Release {
                job: Some(self.job),
                completion_port: None,
                process: None,
            },
            SetupPhase::Associate | SetupPhase::Limits | SetupPhase::Spawn => Release {
                job: Some(self.job),
                completion_port: Some(self.completion_port),
                process: None,
            },
            SetupPhase::Assign | SetupPhase::Threads | SetupPhase::Resume => Release {
                job: Some(self.job),
                completion_port: Some(self.completion_port),
                process: Some(self.process),
            },
            SetupPhase::Established => Release { job: None, completion_port: None, process: None },
            SetupPhase::Failed { release, .. } => release,
        }
    }

    fn abandon(&mut self, error: GroupError)
        ensures
            final(self)@ == old(self)@.abandoned(error),
    {
        let release = self.holding();
        self.phase = SetupPhase::Failed { error, release };
    }

    fn proceed(&mut self, answer: Result<(), i32>, next: SetupPhase)
        requires
            !(next is Resume),
        ensures
            final(self)@ == match answer {
                Ok(_) => old(self)@.to(next),
                Err(code) => old(self)@.abandoned(GroupError::Setup { code }),
            },
    {
        match answer {
            Ok(_) => {
                self.phase = next;
            },
            Err(code) => {
                self.abandon(GroupError::Setup { code });
            },
        }
    }

    /// Takes in the answer to the pending step.
    pub fn advance(&mut self, event: SetupEvent)
        ensures
            final(self)@ == old(self)@.after(event@),
    {
        proof {
            use_type_invariant(&*self);
        }
        match self.phase {
            SetupPhase::Established => {
                return ;
            },
            SetupPhase::Failed { .. } => {
                return ;
            },
            _ => {},
        }
        match event {
            SetupEvent::Failed { code } => {
                self.abandon(GroupError::Setup { code });
            },
            SetupEvent::Handle { handle, last_error } => {
                match self.phase {
                    SetupPhase::Job => {
                        match res_null(handle, last_error) {
                            Ok(job) => {
                                self.job = job;
                                self.phase = SetupPhase::Port;
                            },
                            Err(code) => {
                                self.abandon(GroupError::Setup { code });
                            },
                        }
                    },
                    SetupPhase::Port => {
                        match res_null(handle, last_error) {
                            Ok(completion_port) => {
                                self.completion_port = completion_port;
                                self.phase = SetupPhase::Associate;
                            },
                            Err(code) => {
                                self.abandon(GroupError::Setup { code });
                            },
                        }
                    },
                    _ => {
                        self.abandon(GroupError::Internal);
                    },
                }
            },
            SetupEvent::Flag { ret, last_error } => {
                match self.phase {
                    SetupPhase::Associate => {
                        self.proceed(res_bool(ret, last_error), SetupPhase::Limits);
                    },
                    SetupPhase::Limits => {
                        self.proceed(res_bool(ret, last_error), SetupPhase::Spawn);
                    },
                    SetupPhase::Assign => {
                        self.proceed(res_bool(ret, last_error), SetupPhase::Threads);
                    },
                    _ => {
                        self.abandon(GroupError::Internal);
                    },
                }
            },
            SetupEvent::Spawned { process, pid } => {
                match self.phase {
                    SetupPhase::Spawn => {
                        self.process = process;
                        self.pid = pid;
                        self.phase = SetupPhase::Assign;
                    },
                    _ => {
                        self.abandon(GroupError::Internal);
                    },
                }
            },
            SetupEvent::Threads { entries } => {
                match self.phase {
                    SetupPhase::Threads => {
                        let threads = threads_of(&entries, self.pid);
                        let none = threads.len() == 0;
                        self.phase = SetupPhase::Established;
                        self.threads = threads;
                        self.resumed = 0;
                        if !none {
                            self.phase = SetupPhase::Resume;
                        }
                    },
                    _ => {
                        self.abandon(GroupError::Internal);
                    },
                }
            },
            SetupEvent::Resumed => {
                match self.phase {
                    SetupPhase::Resume => {
                        let last = self.resumed + 1 >= self.threads.len();
                        if last {
                            self.phase = SetupPhase::Established;
                        }
                        self.resumed = self.resumed + 1;
                    },
                    _ => {
                        self.abandon(GroupError::Internal);
                    },
                }
            },
        }
    }
}

/// What holds of a setup after any run of steps, stated for the induction
/// that the laws below rest on.
spec fn on_course(kill_on_drop: bool, creation_flags: u32, inputs: Seq<SetupInput>) -> bool {
    let start = SetupState::initial(kill_on_drop, creation_flags);
    let state = start.run(inputs);
    let job = start.made_job(inputs);
    let port = start.made_port(inputs);
    let child = start.spawned(inputs);
    let nothing_resumed = start.resumed_threads(inputs) == Seq::<u32>::empty();
    &&& state.kill_on_drop == kill_on_drop
    &&& state.creation_flags == creation_flags
    &&& !(state.phase is Established) ==> {
        &&& state.holding().job == job
        &&& state.holding().completion_port == port
        &&& state.holding().process == match child {
            Some((process, _)) => Some(process),
            None => None,
        }
    }
    &&& match state.phase {
        SetupPhase::Job | SetupPhase::Port | SetupPhase::Associate => nothing_resumed,
        SetupPhase::Limits | SetupPhase::Spawn => nothing_resumed && start.tied(inputs),
        SetupPhase::Assign => nothing_resumed && start.tied(inputs) && child == Some(
            (state.process, state.pid),
        ),
        SetupPhase::Threads => nothing_resumed && start.tied(inputs) && start.assigned(inputs)
            && child == Some((state.process, state.pid)),
        SetupPhase::Resume => {
            &&& start.tied(inputs)
            &&& start.assigned(inputs)
            &&& child == Some((state.process, state.pid))
            &&& start.listed(inputs) matches Some(entries)
            &&& state.threads == owned_threads(entries, state.pid)
            &&& state.resumed < state.threads.len()
            &&& start.resumed_threads(inputs) == state.threads.take(state.resumed as int)
        },
        SetupPhase::Established => {
            &&& start.tied(inputs)
            &&& start.assigned(inputs)
            &&& job == Some(state.job)
            &&& port == Some(state.completion_port)
            &&& child matches Some((_, pid))
            &&& start.listed(inputs) matches Some(entries)
            &&& start.resumed_threads(inputs) == owned_threads(entries, pid)
        },
        SetupPhase::Failed { .. } => true,
    }
}

proof fn lemma_on_course(kill_on_drop: bool, creation_flags: u32, inputs: Seq<SetupInput>)
    ensures
        on_course(kill_on_drop, creation_flags, inputs),
    decreases inputs.len(),
{
    let start = SetupState::initial(kill_on_drop, creation_flags);
    if inputs.len() > 0 {
        let earlier = inputs.drop_last();
        lemma_on_course(kill_on_drop, creation_flags, earlier);
        let before = start.run(earlier);
        let state = start.run(inputs);
        if before.phase is Resume && inputs.last() is Resumed {
            let done = before.threads.take(before.resumed as int);
            let thread = before.threads[before.resumed as int];
            assert(done.push(thread) =~= before.threads.take(before.resumed as int + 1));
            assert(before.threads.take(before.threads.len() as int) =~= before.threads);
        }
        if before.phase is Threads && inputs.last() is Threads {
            assert(state.threads.take(0) =~= Seq::<u32>::empty());
            if state.threads.len() == 0 {
                assert(state.threads =~= Seq::<u32>::empty());
            }
        }
    }
}

/// No thread of the leader runs before the leader is in its job: whenever
/// the establisher asks for a thread to be resumed, and whenever it declares
/// the group established, the run holds a successful assignment of the
/// spawned process, and before that a successful tying of job and port.
pub proof fn law_resumed_only_after_assignment(
    kill_on_drop: bool,
    creation_flags: u32,
    inputs: Seq<SetupInput>,
)
    requires
        ({
            let end = SetupState::initial(kill_on_drop, creation_flags).run(inputs);
            end.pending() is Resume || end.pending() is Finish
        }),
    ensures
        SetupState::initial(kill_on_drop, creation_flags).assigned(inputs),
        SetupState::initial(kill_on_drop, creation_flags).tied(inputs),
{
    lemma_on_course(kill_on_drop, creation_flags, inputs);
}

/// The leader is spawned only once job and port are tied together, and
/// always suspended, whatever creation flags the caller asked for.
pub proof fn law_spawned_suspended(
    kill_on_drop: bool,
    creation_flags: u32,
    inputs: Seq<SetupInput>,
)
    requires
        SetupState::initial(kill_on_drop, creation_flags).run(inputs).pending() is Spawn,
    ensures
        SetupState::initial(kill_on_drop, creation_flags).tied(inputs),
        SetupState::initial(kill_on_drop, creation_flags).run(inputs).pending()
            == (SetupAction::Spawn { creation_flags: creation_flags | CREATE_SUSPENDED }),
        (creation_flags | CREATE_SUSPENDED) & CREATE_SUSPENDED == CREATE_SUSPENDED,
{
    lemma_on_course(kill_on_drop, creation_flags, inputs);
    assert((creation_flags | 4) & 4 == 4) by (bit_vector);
}

/// An established group is made of the job and the port that the run
/// created, and every thread that the snapshot lists for the spawned process
/// was resumed, once and in the snapshot's order, and no other thread.
pub proof fn law_established_whole(
    kill_on_drop: bool,
    creation_flags: u32,
    inputs: Seq<SetupInput>,
)
    requires
        SetupState::initial(kill_on_drop, creation_flags).run(inputs).phase is Established,
    ensures
        ({
            let start = SetupState::initial(kill_on_drop, creation_flags);
            &&& start.made_job(inputs) matches Some(job)
            &&& start.made_port(inputs) matches Some(completion_port)
            &&& start.run(inputs).pending() == (SetupAction::Finish {
                handles: JobPort { job, completion_port },
            })
            &&& start.spawned(inputs) matches Some((_, pid))
            &&& start.listed(inputs) matches Some(entries)
            &&& start.resumed_threads(inputs) == owned_threads(entries, pid)
        }),
{
    lemma_on_course(kill_on_drop, creation_flags, inputs);
}

/// A setup that is abandoned gives back all it made: the job and the port
/// that were created, and the process that was spawned, and nothing else.
/// No half-made group is left behind.
pub proof fn law_abandoned_releases_all(
    kill_on_drop: bool,
    creation_flags: u32,
    inputs: Seq<SetupInput>,
)
    requires
        SetupState::initial(kill_on_drop, creation_flags).run(inputs).phase is Failed,
    ensures
        ({
            let start = SetupState::initial(kill_on_drop, creation_flags);
            &&& start.run(inputs).pending() matches SetupAction::Abort { release, .. }
            &&& release.job == start.made_job(inputs)
            &&& release.completion_port == start.made_port(inputs)
            &&& release.process == match start.spawned(inputs) {
                Some((process, _)) => Some(process),
                None => None,
            }
        }),
{
    lemma_on_course(kill_on_drop, creation_flags, inputs);
}

} // verus!
