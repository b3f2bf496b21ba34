//! The terminal as the line editor sees it.

use vstd::prelude::*;
use crate::capability::{is_unsupported_name, is_unsupported_term};
use crate::error::ReadlineError;
use crate::mode::{ApplyWhen, FlagBits, Mode};
use crate::reader::{PosixRawReader, ReaderView};
use crate::resize::ResizeMonitor;

verus! {

/// The width assumed where the size of the window cannot be had.
pub const DEFAULT_COLUMNS: usize = 80;

/// The height assumed where the size of the window cannot be had.
pub const DEFAULT_ROWS: usize = 24;

/// The size of the window as columns and rows: the reported one, or 80 by 24
/// where the query failed.
pub open spec fn win_size_spec(reported: Option<(u16, u16)>) -> (usize, usize) {
    match reported {
        Some((cols, rows)) => (cols as usize, rows as usize),
        None => (DEFAULT_COLUMNS, DEFAULT_ROWS),
    }
}

/// Columns and rows of the window, given what the query for its size
/// returned, `None` standing for a failed query.
pub fn get_win_size(reported: Option<(u16, u16)>) -> (size: (usize, usize))
    ensures
        size == win_size_spec(reported),
{
    match reported {
        Some((cols, rows)) => (cols as usize, rows as usize),
        None => (DEFAULT_COLUMNS, DEFAULT_ROWS),
    }
}

/// The bytes that move the cursor home and clear the screen: `ESC [ H` and
/// `ESC [ 2 J`.
pub open spec fn clear_screen_bytes() -> Seq<u8> {
    seq![0x1bu8, 0x5bu8, 0x48u8, 0x1bu8, 0x5bu8, 0x32u8, 0x4au8]
}

/// What has happened so far of entering raw mode.
#[derive(Clone, Copy, Debug, PartialEq, Eq)]
pub enum RawModeStep {
    /// Nothing yet.
    Begin,
    /// The current discipline was asked for: here it is, or the error number.
    Captured(Result<Mode, i32>),
    /// The raw discipline was applied over `saved`, or applying it failed
    /// with the error number.
    Applied(Mode, Result<(), i32>),
}

/// What entering raw mode takes next, or what it has come to.
#[derive(Clone, Copy, Debug, PartialEq, Eq, Structural)]
pub enum RawModeAction {
    /// Ask the terminal for its current discipline.
    Capture,
    /// Apply `raw` at the time given; `saved` is what was captured.
    Apply { raw: Mode, when: ApplyWhen, saved: Mode },
    /// Raw mode is on; the discipline to restore is this.
    Entered(Mode),
    /// Raw mode was not entered.
    Failed(ReadlineError),
}

/// What has happened so far of clearing the screen.
#[derive(Clone, Copy, Debug, PartialEq, Eq)]
pub enum ClearStep {
    /// Nothing yet.
    Begin,
    /// The bytes were written, or writing failed with the error number.
    Written(Result<(), i32>),
    /// The output was flushed, or flushing failed with the error number.
    Flushed(Result<(), i32>),
}

/// What clearing the screen takes next, or what it has come to.
#[derive(Debug, PartialEq, Eq)]
pub enum ClearAction {
    /// Write these bytes to the output.
    Write(Vec<u8>),
    /// Flush the output.
    Flush,
    /// The screen is cleared.
    Cleared,
    /// The screen was not cleared.
    Failed(ReadlineError),
}

/// Whether the action is the one that clearing the screen takes after `step`:
/// the bytes are written, then the output is flushed, and a failure of either
/// ends it with that error.
pub open spec fn is_clear_action(step: ClearStep, action: ClearAction) -> bool {
    match step {
        ClearStep::Begin => action matches ClearAction::Write(bytes) && bytes@
            == clear_screen_bytes(),
        ClearStep::Written(Ok(())) => action == ClearAction::Flush,
        ClearStep::Flushed(Ok(())) => action == ClearAction::Cleared,
        ClearStep::Written(Err(errno)) => action == ClearAction::Failed(ReadlineError::Io(errno)),
        ClearStep::Flushed(Err(errno)) => action == ClearAction::Failed(ReadlineError::Io(errno)),
    }
}

/// A terminal, with what was found out about it when it was first looked at.
#[derive(Clone, Copy, Debug)]
pub struct PosixTerminal {
    unsupported: bool,
    stdin_isatty: bool,
}

impl PosixTerminal {
    /// Whether the terminal's type is one that cannot be put to raw mode.
    pub closed spec fn unsupported(&self) -> bool {
        self.unsupported
    }

    /// Whether the standard input is a terminal.
    pub closed spec fn stdin_isatty(&self) -> bool {
        self.stdin_isatty
    }

    /// Whether a terminal like this one gets the window-change
    /// handler: its type is supported, and input and output are terminals.
    pub open spec fn monitors_resize(&self, stdout_isatty: bool) -> bool {
        !self.unsupported() && self.stdin_isatty() && stdout_isatty
    }

    /// The next action of entering raw mode: to capture the current
    /// discipline, then to apply the raw one derived from it once pending
    /// output is written, and then to hand back what was captured. A failed
    /// step ends it with the error number. On an input that is no terminal it
    /// fails at every step, so that nothing is ever applied.
    pub open spec fn raw_mode_action(&self, step: RawModeStep, bits: FlagBits) -> RawModeAction {
        if !self.stdin_isatty() {
            RawModeAction::Failed(ReadlineError::NotATerminal)
        } else {
            match step {
                RawModeStep::Begin => RawModeAction::Capture,
                RawModeStep::Captured(Ok(saved)) => RawModeAction::Apply {
                    raw: saved.raw_spec(bits),
                    when: ApplyWhen::Drain,
                    saved,
                },
                RawModeStep::Captured(Err(errno)) => RawModeAction::Failed(
                    ReadlineError::Os(errno),
                ),
                RawModeStep::Applied(saved, Ok(())) => RawModeAction::Entered(saved),
                RawModeStep::Applied(_, Err(errno)) => RawModeAction::Failed(
                    ReadlineError::Os(errno),
                ),
            }
        }
    }

    /// Looks at the terminal: `term` is the name of its type, if it has one,
    /// and the two flags say whether input and output are terminals. Where the
    /// terminal can be edited on, the window-change handler is marked as
    /// installed in `monitor`; otherwise `monitor` is left as it is.
    pub fn new(
        term: Option<&str>,
        stdin_isatty: bool,
        stdout_isatty: bool,
        monitor: &mut ResizeMonitor,
    ) -> (t: PosixTerminal)
        ensures
            t.unsupported() == (term matches Some(name) && is_unsupported_name(name@)),
            t.stdin_isatty() == stdin_isatty,
            t.monitors_resize(stdout_isatty) ==> *final(monitor) == old(monitor).after_install(),
            !t.monitors_resize(stdout_isatty) ==> *final(monitor) == *old(monitor),
    {
        let t = PosixTerminal { unsupported: is_unsupported_term(term), stdin_isatty };
        if !t.unsupported && t.stdin_isatty && stdout_isatty {
            monitor.install_sigwinch_handler();
        }
        t
    }

    /// Whether the terminal cannot provide a rich line-editing user
    /// interface.
    pub fn is_unsupported(&self) -> (b: bool)
        ensures
            b == self.unsupported(),
    {
        self.unsupported
    }

    /// Whether stdin is connected to a terminal.
    pub fn is_stdin_tty(&self) -> (b: bool)
        ensures
            b == self.stdin_isatty(),
    {
        self.stdin_isatty
    }

    /// The number of columns of the window, or 80 where the query failed.
    pub fn get_columns(&self, reported: Option<(u16, u16)>) -> (cols: usize)
        ensures
            cols == win_size_spec(reported).0,
    {
        let (cols, _) = get_win_size(reported);
        cols
    }

    /// The number of rows of the window, or 24 where the query failed.
    pub fn get_rows(&self, reported: Option<(u16, u16)>) -> (rows: usize)
        ensures
            rows == win_size_spec(reported).1,
    {
        let (_, rows) = get_win_size(reported);
        rows
    }

    /// Says what entering raw mode takes next. The caller starts with
    /// `RawModeStep::Begin`, carries out each action and reports its outcome,
    /// until the action is `Entered` or `Failed`.
    pub fn enable_raw_mode(&self, step: RawModeStep, bits: &FlagBits) -> (action: RawModeAction)
        ensures
            action == self.raw_mode_action(step, *bits),
    {
        if !self.stdin_isatty {
            return RawModeAction::Failed(ReadlineError::NotATerminal);
        }
        match step {
            RawModeStep::Begin => RawModeAction::Capture,
            RawModeStep::Captured(Ok(saved)) => RawModeAction::Apply {
                raw: saved.raw(bits),
                when: ApplyWhen::Drain,
                saved,
            },
            RawModeStep::Captured(Err(errno)) => RawModeAction::Failed(ReadlineError::Os(errno)),
            RawModeStep::Applied(saved, Ok(())) => RawModeAction::Entered(saved),
            RawModeStep::Applied(_, Err(errno)) => RawModeAction::Failed(ReadlineError::Os(errno)),
        }
    }

    /// Create a RAW reader.
    pub fn create_reader(&self) -> (r: Result<PosixRawReader, ReadlineError>)
        ensures
            r is Ok,
            r.unwrap()@ == ReaderView::Idle,
    {
        PosixRawReader::new()
    }

    /// Whether a window-change notification has been received since the last
    /// call; the record of it is cleared.
    pub fn sigwinch(&self, monitor: &mut ResizeMonitor) -> (seen: bool)
        ensures
            seen == old(monitor).pending(),
            *final(monitor) == old(monitor).after_poll(),
            !final(monitor).pending(),
    {
        monitor.poll_and_clear()
    }

    /// Clear the screen. Used to handle ctrl+l. The caller starts with
    /// `ClearStep::Begin`, carries out each action and reports its outcome,
    /// until the action is `Cleared` or `Failed`.
    pub fn clear_screen(&mut self, step: ClearStep) -> (action: ClearAction)
        ensures
            is_clear_action(step, action),
            *final(self) == *old(self),
    {
        match step {
            ClearStep::Begin => {
                let bytes = vec![0x1bu8, 0x5bu8, 0x48u8, 0x1bu8, 0x5bu8, 0x32u8, 0x4au8];
                assert(bytes@ =~= clear_screen_bytes());
                ClearAction::Write(bytes)
            },
            ClearStep::Written(Ok(())) => ClearAction::Flush,
            ClearStep::Flushed(Ok(())) => ClearAction::Cleared,
            ClearStep::Written(Err(errno)) => ClearAction::Failed(ReadlineError::Io(errno)),
            ClearStep::Flushed(Err(errno)) => ClearAction::Failed(ReadlineError::Io(errno)),
        }
    }
}

/// On an input that is no terminal, entering raw mode fails as not a terminal
/// whatever has happened, and so never asks for a discipline to be applied.
pub proof fn lemma_no_raw_mode_without_terminal(t: PosixTerminal, step: RawModeStep, bits: FlagBits)
    requires
        !t.stdin_isatty(),
    ensures
        t.raw_mode_action(step, bits) == RawModeAction::Failed(ReadlineError::NotATerminal),
{
}

/// On a terminal, entering raw mode ends with the discipline that was
/// captured: what is handed back for restoring is what was there before.
pub proof fn lemma_raw_mode_returns_captured(t: PosixTerminal, saved: Mode, bits: FlagBits)
    requires
        t.stdin_isatty(),
    ensures
        t.raw_mode_action(RawModeStep::Begin, bits) == RawModeAction::Capture,
        t.raw_mode_action(RawModeStep::Captured(Ok(saved)), bits) == (RawModeAction::Apply {
            raw: saved.raw_spec(bits),
            when: ApplyWhen::Drain,
            saved,
        }),
        t.raw_mode_action(RawModeStep::Applied(saved, Ok(())), bits) == RawModeAction::Entered(
            saved,
        ),
{
}

} // verus!
