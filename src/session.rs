//! Raw-mode sessions: which mode to enter, and the mode to restore.
use vstd::prelude::*;

verus! {

/// Canonical (line-buffered) input.
pub const ICANON: u32 = 0o2;

/// Local echo of typed input.
pub const ECHO: u32 = 0o10;

/// A terminal's mode settings, field for field as the terminal's attribute
/// record holds them.
#[derive(Debug, Clone, Copy, PartialEq, Eq)]
pub struct TermMode {
    pub input_flags: u32,
    pub output_flags: u32,
    pub control_flags: u32,
    pub local_flags: u32,
    pub line_discipline: u8,
    pub control_chars: [u8; 32],
    pub input_speed: u32,
    pub output_speed: u32,
}

/// The mode `m` with canonical input and echo switched off, and nothing else
/// changed.
pub open spec fn raw_mode_of(m: TermMode) -> TermMode {
    TermMode { local_flags: m.local_flags & !(ICANON | ECHO), ..m }
}

/// Why a raw-mode session could not start.
#[derive(Debug, Clone, Copy, PartialEq, Eq, Structural)]
pub enum SessionError {
    /// The terminal's mode could not be read: there is no usable terminal.
    UnsupportedTerminal,
}

/// The mode a terminal had before a raw-mode session began. Releasing the
/// guard, which consumes it, hands that mode back to be restored.
#[derive(Debug)]
pub struct RawModeGuard {
    prior: TermMode,
}

impl RawModeGuard {
    /// The mode to restore when the session ends.
    pub closed spec fn prior(self) -> TermMode {
        self.prior
    }

    /// Starts a session from the terminal's current mode, or fails with
    /// `UnsupportedTerminal` when that mode could not be read. Gives the
    /// guard, whose prior mode is `current`, and the raw mode to apply.
    pub fn acquire(current: Option<TermMode>) -> (r: Result<(RawModeGuard, TermMode), SessionError>)
        ensures
            current is None <==> r is Err,
            current is None ==> r == Err::<(RawModeGuard, TermMode), _>(
                SessionError::UnsupportedTerminal,
            ),
            current is Some ==> r is Ok && r->Ok_0.0.prior() == current->Some_0 && r->Ok_0.1
                == raw_mode_of(current->Some_0),
    {
        match current {
            Some(m) => {
                let raw = TermMode { local_flags: m.local_flags & !(ICANON | ECHO), ..m };
                Ok((RawModeGuard { prior: m }, raw))
            },
            None => Err(SessionError::UnsupportedTerminal),
        }
    }

    /// Ends the session; gives the mode to restore. For a guard that
    /// `acquire` made from `current`, that is `current`, byte for byte.
    pub fn release(self) -> (m: TermMode)
        ensures
            m == self.prior(),
    {
        self.prior
    }
}

/// Input is waiting to be read.
pub const POLLIN: i16 = 0x001;

/// Whether draining stale input goes on with another read. `poll_result` and
/// `return_events` are what the last non-blocking poll gave; `last_read` is
/// what the read before it returned, `None` before the first read. Draining
/// goes on while the poll reports input waiting, whatever other flags it
/// sets, and stops once the queue is empty, the poll fails, or a read
/// delivers nothing (as at end of input).
pub fn drain_more(poll_result: i32, return_events: i16, last_read: Option<isize>) -> (r: bool)
    ensures
        r == (poll_result > 0 && return_events & POLLIN != 0 && match last_read {
            Some(n) => n > 0,
            None => true,
        }),
{
    let read_ok = match last_read {
        Some(n) => n > 0,
        None => true,
    };
    poll_result > 0 && return_events & POLLIN != 0 && read_ok
}

/// The raw mode of a session clears canonical input and echo and keeps
/// every other setting and flag bit of the mode it started from.
pub proof fn lemma_raw_mode_keeps_other_settings(current: TermMode)
    ensures
        raw_mode_of(current).local_flags & (ICANON | ECHO) == 0,
        raw_mode_of(current).local_flags & !(ICANON | ECHO) == current.local_flags & !(ICANON
            | ECHO),
        raw_mode_of(current) == (TermMode { local_flags: raw_mode_of(current).local_flags, ..current }),
{
    let l = current.local_flags;
    assert((l & !(0o2u32 | 0o10u32)) & (0o2u32 | 0o10u32) == 0) by (bit_vector);
    assert((l & !(0o2u32 | 0o10u32)) & !(0o2u32 | 0o10u32) == l & !(0o2u32 | 0o10u32))
        by (bit_vector);
}

} // verus!
