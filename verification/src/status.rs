//! Decoding of raw platform wait statuses.
//!
//! A raw wait status packs two mutually exclusive outcomes into one integer:
//! either the process exited normally with a code, or it was terminated by a
//! signal.  The decoding here follows the standard POSIX layout: the low
//! seven bits are zero exactly when the process exited normally, in which
//! case bits 8..16 carry the exit code; otherwise the low seven bits carry
//! the number of the terminating signal.

use vstd::prelude::*;

verus! {

/// True when the raw status describes a normal exit.
pub open spec fn is_exited(raw: u32) -> bool {
    raw & 0x7f == 0
}

/// The exit code carried by a normal-exit status.
pub open spec fn exit_code_of(raw: u32) -> u32 {
    (raw >> 8) & 0xff
}

/// The terminating signal carried by a signaled status.
pub open spec fn term_signal_of(raw: u32) -> u32 {
    raw & 0x7f
}

/// The two-way classification of a raw wait status: a process either
/// exited with a code or was terminated by a signal, never both.
#[derive(Clone, Copy, Debug, PartialEq, Eq)]
pub enum ExitStatus {
    Exited(u32),
    Signaled(u32),
}

/// What decoding a raw status must yield.
pub open spec fn decode_spec(raw: u32) -> ExitStatus {
    if is_exited(raw) {
        ExitStatus::Exited(exit_code_of(raw))
    } else {
        ExitStatus::Signaled(term_signal_of(raw))
    }
}

/// Classifies a raw wait status.  Total: every representable raw value
/// decodes to exactly one of the two outcomes.
pub fn decode_wait_status(raw: u32) -> (r: ExitStatus)
    ensures
        r == decode_spec(raw),
{
    if raw & 0x7f == 0 {
        ExitStatus::Exited((raw >> 8) & 0xff)
    } else {
        ExitStatus::Signaled(raw & 0x7f)
    }
}

/// A possibly-not-yet-known wait status: `None` while the child is still
/// running, `Some(raw)` once a reap has observed a terminal status.
#[derive(Clone, Copy, Debug, PartialEq, Eq)]
pub struct HabExitStatus {
    pub status: Option<u32>,
}

/// The exit code visible in a wait status, if it describes a normal exit.
pub open spec fn code_spec(status: Option<u32>) -> Option<u32> {
    match status {
        Option::Some(raw) => if is_exited(raw) {
            Option::Some(exit_code_of(raw))
        } else {
            Option::None
        },
        Option::None => Option::None,
    }
}

/// The terminating signal visible in a wait status, if it describes a
/// termination by signal.
pub open spec fn signal_spec(status: Option<u32>) -> Option<u32> {
    match status {
        Option::Some(raw) => if !is_exited(raw) {
            Option::Some(term_signal_of(raw))
        } else {
            Option::None
        },
        Option::None => Option::None,
    }
}

impl HabExitStatus {
    /// True while no terminal status has been observed.
    pub fn no_status(&self) -> (r: bool)
        ensures
            r == (self.status is None),
    {
        self.status.is_none()
    }

    /// The exit code, when the child exited normally.
    pub fn code(&self) -> (r: Option<u32>)
        ensures
            r == code_spec(self.status),
    {
        match self.status {
            Option::Some(raw) => if raw & 0x7f == 0 {
                Option::Some((raw >> 8) & 0xff)
            } else {
                Option::None
            },
            Option::None => Option::None,
        }
    }

    /// The terminating signal, when the child was killed by one.
    pub fn signal(&self) -> (r: Option<u32>)
        ensures
            r == signal_spec(self.status),
    {
        match self.status {
            Option::Some(raw) => if raw & 0x7f != 0 {
                Option::Some(raw & 0x7f)
            } else {
                Option::None
            },
            Option::None => Option::None,
        }
    }
}

/// Decoding is total and exclusive: once a raw status is known, exactly one
/// of the exit code and the terminating signal is present, and each agrees
/// with the two-way classification of the raw value.
pub proof fn lemma_decode_total_exclusive(raw: u32)
    ensures
        code_spec(Option::Some(raw)) is Some <==> decode_spec(raw) is Exited,
        signal_spec(Option::Some(raw)) is Some <==> decode_spec(raw) is Signaled,
        (code_spec(Option::Some(raw)) is Some) != (signal_spec(Option::Some(raw)) is Some),
        decode_spec(raw) is Exited ==> decode_spec(raw) == ExitStatus::Exited(
            code_spec(Option::Some(raw)).unwrap(),
        ),
        decode_spec(raw) is Signaled ==> decode_spec(raw) == ExitStatus::Signaled(
            signal_spec(Option::Some(raw)).unwrap(),
        ),
{
}

} // verus!
