//! Terminal status of a process, and what a finished group hands back.

use vstd::prelude::*;

verus! {

/// How a process ended: with an exit code, or by a signal.
///
/// A status is captured once and handed out verbatim afterwards.
#[derive(Clone, Copy, Debug, PartialEq, Eq, Structural)]
pub enum ExitStatus {
    /// The process exited on its own with this code.
    Exited { code: i32 },
    /// The process was terminated by this signal.
    Signaled { signal: i32, core_dumped: bool },
}

impl ExitStatus {
    /// The status is an exit with code zero.
    pub open spec fn spec_success(&self) -> bool {
        *self == (ExitStatus::Exited { code: 0 })
    }

    /// The exit code, if the process exited on its own.
    pub open spec fn spec_code(&self) -> Option<i32> {
        match *self {
            ExitStatus::Exited { code } => Some(code),
            ExitStatus::Signaled { .. } => None,
        }
    }

    /// The terminating signal, if there was one.
    pub open spec fn spec_signal(&self) -> Option<i32> {
        match *self {
            ExitStatus::Exited { .. } => None,
            ExitStatus::Signaled { signal, .. } => Some(signal),
        }
    }

    /// A signal terminated the process and left a core dump.
    pub open spec fn spec_core_dumped(&self) -> bool {
        match *self {
            ExitStatus::Exited { .. } => false,
            ExitStatus::Signaled { core_dumped, .. } => core_dumped,
        }
    }

    /// The status fits the sixteen-bit word that a POSIX wait call reports:
    /// an exit code of one byte, or a signal number from 1 to 126.
    pub open spec fn fits_wait_word(self) -> bool {
        match self {
            ExitStatus::Exited { code } => 0 <= code < 256,
            ExitStatus::Signaled { signal, .. } => 1 <= signal <= 126,
        }
    }

    /// The wait word of a status: the signal number in the low seven bits,
    /// the core flag in the eighth, the exit code in the second byte.
    /// Values outside the word's range are cut to the bits that fit.
    pub open spec fn wait_word(self) -> int {
        match self {
            ExitStatus::Exited { code } => (code as int % 256) * 256,
            ExitStatus::Signaled { signal, core_dumped } => signal as int % 128 + if core_dumped {
                128int
            } else {
                0int
            },
        }
    }

    /// The terminal status that a wait word stands for. Words that report a
    /// stopped or continued process (low seven bits all set) stand for none.
    pub open spec fn of_wait_word(raw: i32) -> Option<ExitStatus> {
        let signal = raw as int % 128;
        if signal == 0 {
            Some(ExitStatus::Exited { code: ((raw as int / 256) % 256) as i32 })
        } else if signal == 127 {
            None
        } else {
            Some(
                ExitStatus::Signaled {
                    signal: signal as i32,
                    core_dumped: (raw as int / 128) % 2 == 1,
                },
            )
        }
    }

    #[verifier::when_used_as_spec(spec_success)]
    pub fn success(&self) -> (yes: bool)
        ensures
            yes == self.spec_success(),
    {
        match self {
            ExitStatus::Exited { code } => *code == 0,
            ExitStatus::Signaled { .. } => false,
        }
    }

    #[verifier::when_used_as_spec(spec_code)]
    pub fn code(&self) -> (code: Option<i32>)
        ensures
            code == self.spec_code(),
    {
        match self {
            ExitStatus::Exited { code } => Some(*code),
            ExitStatus::Signaled { .. } => None,
        }
    }

    #[verifier::when_used_as_spec(spec_signal)]
    pub fn signal(&self) -> (signal: Option<i32>)
        ensures
            signal == self.spec_signal(),
    {
        match self {
            ExitStatus::Exited { .. } => None,
            ExitStatus::Signaled { signal, .. } => Some(*signal),
        }
    }

    /// Whether the terminating signal left a core dump.
    #[verifier::when_used_as_spec(spec_core_dumped)]
    pub fn core_dumped(&self) -> (yes: bool)
        ensures
            yes == self.spec_core_dumped(),
    {
        match self {
            ExitStatus::Exited { .. } => false,
            ExitStatus::Signaled { core_dumped, .. } => *core_dumped,
        }
    }

    /// Decodes the word a POSIX wait call reports.
    pub fn from_raw(raw: i32) -> (status: Option<ExitStatus>)
        ensures
            status == Self::of_wait_word(raw),
            status matches Some(s) ==> s.fits_wait_word(),
    {
        let signal: i32 = raw & 0x7f;
        let code: i32 = (raw >> 8) & 0xff;
        let core: i32 = raw & 0x80;
        assert(raw & 0x7f == (raw as int) % 128) by (bit_vector);
        assert((raw >> 8) & 0xff == ((raw as int) / 256) % 256) by (bit_vector);
        assert((raw & 0x80 != 0) == (((raw as int) / 128) % 2 == 1)) by (bit_vector);
        if signal == 0 {
            Some(ExitStatus::Exited { code })
        } else if signal == 0x7f {
            None
        } else {
            Some(ExitStatus::Signaled { signal, core_dumped: core != 0 })
        }
    }

    /// Encodes the status as the word a POSIX wait call would report for it.
    pub fn into_raw(&self) -> (raw: i32)
        ensures
            raw == self.wait_word(),
            0 <= raw < 0x1_0000,
    {
        match self {
            ExitStatus::Exited { code } => {
                let code: i32 = *code;
                let byte: i32 = code & 0xff;
                assert(code & 0xff == (code as int) % 256) by (bit_vector);
                assert(0 <= byte < 256 ==> byte << 8 == byte * 256 && 0 <= byte << 8 < 0x1_0000)
                    by (bit_vector);
                byte << 8
            },
            ExitStatus::Signaled { signal, core_dumped } => {
                let signal: i32 = *signal;
                let low: i32 = signal & 0x7f;
                assert(signal & 0x7f == (signal as int) % 128) by (bit_vector);
                assert(0 <= low < 128 ==> low | 0x80 == low + 128) by (bit_vector);
                if *core_dumped {
                    low | 0x80
                } else {
                    low
                }
            },
        }
    }

    /// Encoding a status that fits the wait word and decoding the word again
    /// gives the status back.
    pub proof fn lemma_wait_word_round_trip(self)
        requires
            self.fits_wait_word(),
        ensures
            -0x8000_0000 <= self.wait_word() < 0x8000_0000,
            Self::of_wait_word(self.wait_word() as i32) == Some(self),
    {
    }

    /// Decoding a wait word and encoding the status again keeps the bits
    /// that carry the status: the second byte of an exit, the low byte of a
    /// kill.
    pub proof fn lemma_wait_word_kept(raw: i32)
        requires
            Self::of_wait_word(raw) is Some,
        ensures
            Self::of_wait_word(raw).unwrap().wait_word() == if raw as int % 128 == 0 {
                ((raw as int / 256) % 256) * 256
            } else {
                (raw as int) % 256
            },
    {
    }
}

/// What a finished group hands back: the leader's status and all that it and
/// its descendants wrote to the two captured streams.
#[derive(Debug)]
pub struct Output {
    pub status: ExitStatus,
    pub stdout: Vec<u8>,
    pub stderr: Vec<u8>,
}

} // verus!
