//! The dual-stream drainer: reads a group's standard output and standard
//! error to their ends without letting the backlog of one stall the other.
//!
//! The drainer does no input or output itself. It is a state machine: it says
//! which step comes next ([`Drainer::pending`]), the caller performs the step
//! on the real streams and reports how it went ([`Drainer::advance`]). When
//! both streams are there, both are put into non-blocking mode and watched
//! together; the stream that reaches its end first lets the other one be read
//! to its end in blocking mode.

use crate::error::GroupError;
use vstd::prelude::*;

verus! {

/// One of the two output streams of a group's leader.
#[derive(Clone, Copy, Debug, PartialEq, Eq, Structural)]
pub enum Stream {
    Stdout,
    Stderr,
}

impl Stream {
    /// The other one of the two streams.
    pub open spec fn spec_other(self) -> Stream {
        match self {
            Stream::Stdout => Stream::Stderr,
            Stream::Stderr => Stream::Stdout,
        }
    }

    /// This stream is one of those that are there.
    pub open spec fn is_among(self, has_stdout: bool, has_stderr: bool) -> bool {
        match self {
            Stream::Stdout => has_stdout,
            Stream::Stderr => has_stderr,
        }
    }

    /// The other one of the two streams.
    #[verifier::when_used_as_spec(spec_other)]
    pub fn other(self) -> (stream: Stream)
        ensures
            stream == self.spec_other(),
    {
        match self {
            Stream::Stdout => Stream::Stderr,
            Stream::Stderr => Stream::Stdout,
        }
    }
}

/// How the two streams are read when both are there.
#[derive(Clone, Copy, Debug, PartialEq, Eq, Structural)]
pub enum Strategy {
    /// Both streams are watched together; neither can stall the other.
    Multiplexed,
    /// Standard output is read to its end, then standard error. For
    /// platforms without a way to watch both: a leader that fills standard
    /// error while nobody reads it blocks, and the drain with it.
    Sequential,
}

/// Why a read came back.
#[derive(Clone, Copy, Debug, PartialEq, Eq, Structural)]
pub enum ReadEnd {
    /// The stream is at its end.
    Eof,
    /// The stream, in non-blocking mode, has nothing more for now.
    WouldBlock,
}

/// The step the caller performs next.
#[derive(Clone, Copy, Debug, PartialEq, Eq, Structural)]
pub enum DrainAction {
    /// Switch `stream` to non-blocking mode (`on`) or back to blocking mode.
    SetNonblocking { stream: Stream, on: bool },
    /// Block until one of the two streams has something to report.
    Poll,
    /// Read from `stream` until its end, or until it would block.
    Read { stream: Stream },
    /// Both streams are drained: take the output.
    Finish,
    /// The drain failed: what was read is gone.
    Abort { error: GroupError },
}

/// Where the drain stands.
#[derive(Clone, Copy, Debug, PartialEq, Eq, Structural)]
pub enum Phase {
    /// `stream` is about to be put into non-blocking mode.
    Arm { stream: Stream },
    /// Both streams are non-blocking; waiting for one to be ready.
    Poll,
    /// Standard output is ready and is read; `err_ready` says whether
    /// standard error was reported ready by the same poll.
    TryOut { err_ready: bool },
    /// Standard error is ready and is read.
    TryErr,
    /// The other stream has ended; `stream` is about to be put back into
    /// blocking mode.
    Disarm { stream: Stream },
    /// `stream` is read to its end in blocking mode. Unless `last`, the other
    /// stream follows.
    Rest { stream: Stream, last: bool },
    /// Every stream that was there has been read to its end.
    Done,
    /// The drain failed.
    Failed { error: GroupError },
}

/// How the pending step went, as a mathematical value.
pub enum DrainInput {
    /// The mode of the stream was switched.
    ModeSet,
    /// The poll came back; `out` and `err` say which streams reported.
    Ready { out: bool, err: bool },
    /// The read got `data` and came back for the reason `end`.
    Chunk { data: Seq<u8>, end: ReadEnd },
    /// The step failed with this error number.
    Failed { code: i32 },
}

/// How the pending step went.
#[derive(Debug)]
pub enum DrainEvent {
    /// The mode of the stream was switched.
    ModeSet,
    /// The poll came back; `out` and `err` say which streams reported.
    Ready { out: bool, err: bool },
    /// The read got `data` and came back for the reason `end`.
    Chunk { data: Vec<u8>, end: ReadEnd },
    /// The step failed with this error number.
    Failed { code: i32 },
}

impl View for DrainEvent {
    type V = DrainInput;

    open spec fn view(&self) -> DrainInput {
        match *self {
            DrainEvent::ModeSet => DrainInput::ModeSet,
            DrainEvent::Ready { out, err } => DrainInput::Ready { out, err },
            DrainEvent::Chunk { data, end } => DrainInput::Chunk { data: data@, end },
            DrainEvent::Failed { code } => DrainInput::Failed { code },
        }
    }
}

/// The drainer's state as a mathematical value: the phase and the bytes
/// collected from each stream so far.
pub struct DrainState {
    pub phase: Phase,
    pub stdout: Seq<u8>,
    pub stderr: Seq<u8>,
}

impl DrainState {
    /// The state before anything was done.
    pub open spec fn initial(strategy: Strategy, has_stdout: bool, has_stderr: bool) -> DrainState {
        DrainState {
            phase: if has_stdout && has_stderr {
                match strategy {
                    Strategy::Multiplexed => Phase::Arm { stream: Stream::Stdout },
                    Strategy::Sequential => Phase::Rest { stream: Stream::Stdout, last: false },
                }
            } else if has_stdout {
                Phase::Rest { stream: Stream::Stdout, last: true }
            } else if has_stderr {
                Phase::Rest { stream: Stream::Stderr, last: true }
            } else {
                Phase::Done
            },
            stdout: Seq::empty(),
            stderr: Seq::empty(),
        }
    }

    /// The step that the caller performs in this state.
    pub open spec fn pending(self) -> DrainAction {
        match self.phase {
            Phase::Arm { stream } => DrainAction::SetNonblocking { stream, on: true },
            Phase::Poll => DrainAction::Poll,
            Phase::TryOut { .. } => DrainAction::Read { stream: Stream::Stdout },
            Phase::TryErr => DrainAction::Read { stream: Stream::Stderr },
            Phase::Disarm { stream } => DrainAction::SetNonblocking { stream, on: false },
            Phase::Rest { stream, .. } => DrainAction::Read { stream },
            Phase::Done => DrainAction::Finish,
            Phase::Failed { error } => DrainAction::Abort { error },
        }
    }

    /// This state in another phase.
    pub open spec fn to(self, phase: Phase) -> DrainState {
        DrainState { phase, ..self }
    }

    /// This state with `data` added to what was collected from `stream`.
    pub open spec fn with(self, stream: Stream, data: Seq<u8>) -> DrainState {
        match stream {
            Stream::Stdout => DrainState { stdout: self.stdout + data, ..self },
            Stream::Stderr => DrainState { stderr: self.stderr + data, ..self },
        }
    }

    /// The failed state: nothing of what was collected is kept.
    pub open spec fn failed(error: GroupError) -> DrainState {
        DrainState { phase: Phase::Failed { error }, stdout: Seq::empty(), stderr: Seq::empty() }
    }

    /// The state after the pending step went as `input` says.
    ///
    /// A finished or failed drain stays as it is. A step that failed fails
    /// the drain with the step's error number. An input that does not answer
    /// the pending step fails it as an internal error, and so does a read in
    /// blocking mode that claims it would block.
    pub open spec fn after(self, input: DrainInput) -> DrainState {
        match (self.phase, input) {
            (Phase::Done, _) => self,
            (Phase::Failed { .. }, _) => self,
            (_, DrainInput::Failed { code }) => Self::failed(GroupError::Drain { code }),
            (Phase::Arm { stream: Stream::Stdout }, DrainInput::ModeSet) => self.to(
                Phase::Arm { stream: Stream::Stderr },
            ),
            (Phase::Arm { stream: Stream::Stderr }, DrainInput::ModeSet) => self.to(Phase::Poll),
            (Phase::Poll, DrainInput::Ready { out, err }) => self.to(
                if out {
                    Phase::TryOut { err_ready: err }
                } else if err {
                    Phase::TryErr
                } else {
                    Phase::Poll
                },
            ),
            (Phase::TryOut { err_ready }, DrainInput::Chunk { data, end }) => self.with(
                Stream::Stdout,
                data,
            ).to(
                match end {
                    ReadEnd::Eof => Phase::Disarm { stream: Stream::Stderr },
                    ReadEnd::WouldBlock => if err_ready {
                        Phase::TryErr
                    } else {
                        Phase::Poll
                    },
                },
            ),
            (Phase::TryErr, DrainInput::Chunk { data, end }) => self.with(Stream::Stderr, data).to(
                match end {
                    ReadEnd::Eof => Phase::Disarm { stream: Stream::Stdout },
                    ReadEnd::WouldBlock => Phase::Poll,
                },
            ),
            (Phase::Disarm { stream }, DrainInput::ModeSet) => self.to(
                Phase::Rest { stream, last: true },
            ),
            (
                Phase::Rest { stream, last },
                DrainInput::Chunk { data, end: ReadEnd::Eof },
            ) => self.with(stream, data).to(
                if last {
                    Phase::Done
                } else {
                    Phase::Rest { stream: stream.spec_other(), last: true }
                },
            ),
            _ => Self::failed(GroupError::Internal),
        }
    }

    /// The state after a run of steps went as `inputs` say, one after the other.
    pub open spec fn run(self, inputs: Seq<DrainInput>) -> DrainState
        decreases inputs.len(),
    {
        if inputs.len() == 0 {
            self
        } else {
            self.run(inputs.drop_last()).after(inputs.last())
        }
    }

    /// What the drain hands out in this state: the bytes of both streams
    /// when it is done, the error when it failed, an internal error while it
    /// is still under way.
    pub open spec fn output(self) -> Result<(Seq<u8>, Seq<u8>), GroupError> {
        match self.phase {
            Phase::Done => Ok((self.stdout, self.stderr)),
            Phase::Failed { error } => Err(error),
            _ => Err(GroupError::Internal),
        }
    }

    /// All the bytes that the reads of `stream` brought in during a run, in
    /// the order in which they came.
    pub open spec fn bytes_read(self, inputs: Seq<DrainInput>, stream: Stream) -> Seq<u8>
        decreases inputs.len(),
    {
        if inputs.len() == 0 {
            Seq::empty()
        } else {
            let before = self.run(inputs.drop_last());
            let earlier = self.bytes_read(inputs.drop_last(), stream);
            match inputs.last() {
                DrainInput::Chunk { data, .. } if before.pending() == (DrainAction::Read {
                    stream,
                }) => earlier + data,
                _ => earlier,
            }
        }
    }

    /// During the run a read of `stream` came back at the stream's end.
    pub open spec fn reached_end(self, inputs: Seq<DrainInput>, stream: Stream) -> bool
        decreases inputs.len(),
    {
        if inputs.len() == 0 {
            false
        } else {
            let before = self.run(inputs.drop_last());
            ||| self.reached_end(inputs.drop_last(), stream)
            ||| (before.pending() == (DrainAction::Read { stream })
                && inputs.last() matches DrainInput::Chunk { end: ReadEnd::Eof, .. })
        }
    }
}

/// The drainer of one group's output.
#[derive(Debug)]
pub struct Drainer {
    phase: Phase,
    stdout: Vec<u8>,
    stderr: Vec<u8>,
}

impl View for Drainer {
    type V = DrainState;

    closed spec fn view(&self) -> DrainState {
        DrainState { phase: self.phase, stdout: self.stdout@, stderr: self.stderr@ }
    }
}

impl Drainer {
    /// A drainer for the streams that are there.
    pub fn new(strategy: Strategy, has_stdout: bool, has_stderr: bool) -> (drainer: Self)
        ensures
            drainer@ == DrainState::initial(strategy, has_stdout, has_stderr),
    {
        let phase = if has_stdout && has_stderr {
            match strategy {
                Strategy::Multiplexed => Phase::Arm { stream: Stream::Stdout },
                Strategy::Sequential => Phase::Rest { stream: Stream::Stdout, last: false },
            }
        } else if has_stdout {
            Phase::Rest { stream: Stream::Stdout, last: true }
        } else if has_stderr {
            Phase::Rest { stream: Stream::Stderr, last: true }
        } else {
            Phase::Done
        };
        Drainer { phase, stdout: Vec::new(), stderr: Vec::new() }
    }

    /// Where the drain stands.
    pub fn phase(&self) -> (phase: Phase)
        ensures
            phase == self@.phase,
    {
        self.phase
    }

    /// The step to perform next.
    pub fn pending(&self) -> (action: DrainAction)
        ensures
            action == self@.pending(),
    {
        match self.phase {
            Phase::Arm { stream } => DrainAction::SetNonblocking { stream, on: true },
            Phase::Poll => DrainAction::Poll,
            Phase::TryOut { .. } => DrainAction::Read { stream: Stream::Stdout },
            Phase::TryErr => DrainAction::Read { stream: Stream::Stderr },
            Phase::Disarm { stream } => DrainAction::SetNonblocking { stream, on: false },
            Phase::Rest { stream, .. } => DrainAction::Read { stream },
            Phase::Done => DrainAction::Finish,
            Phase::Failed { error } => DrainAction::Abort { error },
        }
    }

    fn fail(&mut self, error: GroupError)
        ensures
            final(self)@ == DrainState::failed(error),
    {
        self.phase = Phase::Failed { error };
        self.stdout = Vec::new();
        self.stderr = Vec::new();
    }

    fn collect(&mut self, stream: Stream, data: Vec<u8>, phase: Phase)
        ensures
            final(self)@ == old(self)@.with(stream, data@).to(phase),
    {
        let mut data = data;
        match stream {
            Stream::Stdout => self.stdout.append(&mut data),
            Stream::Stderr => self.stderr.append(&mut data),
        }
        self.phase = phase;
    }

    /// Takes in how the pending step went.
    pub fn advance(&mut self, event: DrainEvent)
        ensures
            final(self)@ == old(self)@.after(event@),
    {
        match self.phase {
            Phase::Done => {
                return ;
            },
            Phase::Failed { .. } => {
                return ;
            },
            _ => {},
        }
        match event {
            DrainEvent::Failed { code } => {
                self.fail(GroupError::Drain { code });
            },
            DrainEvent::ModeSet => {
                match self.phase {
                    Phase::Arm { stream: Stream::Stdout } => {
                        self.phase = Phase::Arm { stream: Stream::Stderr };
                    },
                    Phase::Arm { stream: Stream::Stderr } => {
                        self.phase = Phase::Poll;
                    },
                    Phase::Disarm { stream } => {
                        self.phase = Phase::Rest { stream, last: true };
                    },
                    _ => {
                        self.fail(GroupError::Internal);
                    },
                }
            },
            DrainEvent::Ready { out, err } => {
                match self.phase {
                    Phase::Poll => {
                        self.phase = if out {
                            Phase::TryOut { err_ready: err }
                        } else if err {
                            Phase::TryErr
                        } else {
                            Phase::Poll
                        };
                    },
                    _ => {
                        self.fail(GroupError::Internal);
                    },
                }
            },
            DrainEvent::Chunk { data, end } => {
                match self.phase {
                    Phase::TryOut { err_ready } => {
                        let next = match end {
                            ReadEnd::Eof => Phase::Disarm { stream: Stream::Stderr },
                            ReadEnd::WouldBlock => if err_ready {
                                Phase::TryErr
                            } else {
                                Phase::Poll
                            },
                        };
                        self.collect(Stream::Stdout, data, next);
                    },
                    Phase::TryErr => {
                        let next = match end {
                            ReadEnd::Eof => Phase::Disarm { stream: Stream::Stdout },
                            ReadEnd::WouldBlock => Phase::Poll,
                        };
                        self.collect(Stream::Stderr, data, next);
                    },
                    Phase::Rest { stream, last } => {
                        match end {
                            ReadEnd::Eof => {
                                let next = if last {
                                    Phase::Done
                                } else {
                                    Phase::Rest { stream: stream.other(), last: true }
                                };
                                self.collect(stream, data, next);
                            },
                            ReadEnd::WouldBlock => {
                                self.fail(GroupError::Internal);
                            },
                        }
                    },
                    _ => {
                        self.fail(GroupError::Internal);
                    },
                }
            },
        }
    }

    /// Ends the drain and hands out what it collected, standard output
    /// first. A drain that failed hands out its error, and no bytes.
    pub fn into_output(self) -> (res: Result<(Vec<u8>, Vec<u8>), GroupError>)
        ensures
            match self@.output() {
                Ok((stdout, stderr)) => res matches Ok((out, err)) && out@ == stdout && err@
                    == stderr,
                Err(error) => res == Err::<(Vec<u8>, Vec<u8>), GroupError>(error),
            },
    {
        match self.phase {
            Phase::Done => Ok((self.stdout, self.stderr)),
            Phase::Failed { error } => Err(error),
            _ => Err(GroupError::Internal),
        }
    }
}

/// What holds of a drain after any run of steps, stated for the induction
/// that the laws below rest on.
spec fn on_course(
    strategy: Strategy,
    has_stdout: bool,
    has_stderr: bool,
    inputs: Seq<DrainInput>,
) -> bool {
    let start = DrainState::initial(strategy, has_stdout, has_stderr);
    let state = start.run(inputs);
    let both = has_stdout && has_stderr;
    match state.phase {
        Phase::Failed { .. } => state.stdout == Seq::<u8>::empty() && state.stderr == Seq::<
            u8,
        >::empty(),
        phase => {
            &&& state.stdout == start.bytes_read(inputs, Stream::Stdout)
            &&& state.stderr == start.bytes_read(inputs, Stream::Stderr)
            &&& match phase {
                Phase::Disarm { stream } => both && strategy == Strategy::Multiplexed
                    && start.reached_end(inputs, stream.spec_other()),
                Phase::Rest { stream, last: true } => if both {
                    start.reached_end(inputs, stream.spec_other())
                } else {
                    stream.is_among(has_stdout, has_stderr)
                },
                Phase::Rest { stream, last: false } => both && strategy == Strategy::Sequential
                    && stream == Stream::Stdout,
                Phase::Done => (has_stdout ==> start.reached_end(inputs, Stream::Stdout)) && (
                has_stderr ==> start.reached_end(inputs, Stream::Stderr)),
                _ => both && strategy == Strategy::Multiplexed,
            }
        },
    }
}

proof fn lemma_on_course(
    strategy: Strategy,
    has_stdout: bool,
    has_stderr: bool,
    inputs: Seq<DrainInput>,
)
    ensures
        on_course(strategy, has_stdout, has_stderr, inputs),
    decreases inputs.len(),
{
    if inputs.len() > 0 {
        lemma_on_course(strategy, has_stdout, has_stderr, inputs.drop_last());
    }
}

/// A drain that is done has read every stream that was there to its end, and
/// hands out, for each stream, exactly the bytes that the reads of that
/// stream brought in, in their order.
pub proof fn law_drain_complete(
    strategy: Strategy,
    has_stdout: bool,
    has_stderr: bool,
    inputs: Seq<DrainInput>,
)
    requires
        DrainState::initial(strategy, has_stdout, has_stderr).run(inputs).phase is Done,
    ensures
        ({
            let start = DrainState::initial(strategy, has_stdout, has_stderr);
            &&& start.run(inputs).output() == Ok::<(Seq<u8>, Seq<u8>), GroupError>(
                (
                    start.bytes_read(inputs, Stream::Stdout),
                    start.bytes_read(inputs, Stream::Stderr),
                ),
            )
            &&& has_stdout ==> start.reached_end(inputs, Stream::Stdout)
            &&& has_stderr ==> start.reached_end(inputs, Stream::Stderr)
        }),
{
    lemma_on_course(strategy, has_stdout, has_stderr, inputs);
}

/// When both streams are watched together, a stream is read in blocking mode
/// only after the other one has reached its end: no read can wait on one
/// stream while the leader is stuck writing to the other.
pub proof fn law_blocking_read_after_end(inputs: Seq<DrainInput>, stream: Stream)
    requires
        DrainState::initial(Strategy::Multiplexed, true, true).run(inputs).pending() == (
        DrainAction::Read { stream }),
        DrainState::initial(Strategy::Multiplexed, true, true).run(inputs).phase is Rest,
    ensures
        DrainState::initial(Strategy::Multiplexed, true, true).reached_end(
            inputs,
            stream.spec_other(),
        ),
{
    lemma_on_course(Strategy::Multiplexed, true, true, inputs);
}

/// The drainer asks only for what can be done: it reads, polls and switches
/// the mode of no stream that is not there.
pub proof fn law_only_present_streams(
    strategy: Strategy,
    has_stdout: bool,
    has_stderr: bool,
    inputs: Seq<DrainInput>,
)
    ensures
        match DrainState::initial(strategy, has_stdout, has_stderr).run(inputs).pending() {
            DrainAction::Read { stream } => stream.is_among(has_stdout, has_stderr),
            DrainAction::SetNonblocking { stream, .. } => stream.is_among(has_stdout, has_stderr),
            DrainAction::Poll => has_stdout && has_stderr,
            DrainAction::Finish => true,
            DrainAction::Abort { .. } => true,
        },
{
    lemma_on_course(strategy, has_stdout, has_stderr, inputs);
}

/// A drain that failed keeps nothing of what it had read, and hands out its
/// error instead of a truncated output.
pub proof fn law_failure_discards(
    strategy: Strategy,
    has_stdout: bool,
    has_stderr: bool,
    inputs: Seq<DrainInput>,
)
    requires
        DrainState::initial(strategy, has_stdout, has_stderr).run(inputs).phase is Failed,
    ensures
        ({
            let end = DrainState::initial(strategy, has_stdout, has_stderr).run(inputs);
            &&& end.stdout == Seq::<u8>::empty()
            &&& end.stderr == Seq::<u8>::empty()
            &&& end.output() is Err
        }),
{
    lemma_on_course(strategy, has_stdout, has_stderr, inputs);
}

} // verus!
