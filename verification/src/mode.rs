//! The line discipline of a terminal, and the raw discipline derived from it.

use vstd::prelude::*;
use crate::error::ReadlineError;

verus! {

/// The settings of a terminal's line discipline that raw mode is concerned
/// with: the four groups of flags, and the two control values that govern a
/// read.
#[derive(Clone, Copy, Debug, PartialEq, Eq, Structural)]
pub struct Mode {
    pub input_flags: u64,
    pub output_flags: u64,
    pub control_flags: u64,
    pub local_flags: u64,
    /// The least number of bytes that a read waits for.
    pub min_bytes: u8,
    /// The longest wait between two bytes of a read, in tenths of a second.
    pub read_timeout: u8,
}

/// The bits that the platform gives to the flags that raw mode changes.
#[derive(Clone, Copy, Debug, PartialEq, Eq, Structural)]
pub struct FlagBits {
    /// Input: a break condition raises an interrupt.
    pub brkint: u64,
    /// Input: a carriage return is turned into a newline.
    pub icrnl: u64,
    /// Input: parity is checked.
    pub inpck: u64,
    /// Input: the eighth bit is stripped.
    pub istrip: u64,
    /// Input: output stops and starts on control characters.
    pub ixon: u64,
    /// Control: characters have eight bits.
    pub cs8: u64,
    /// Local: input is echoed.
    pub echo: u64,
    /// Local: input is handed over line by line.
    pub icanon: u64,
    /// Local: extended input processing.
    pub iexten: u64,
    /// Local: control characters raise signals.
    pub isig: u64,
}

/// When a change of the discipline takes effect.
#[derive(Clone, Copy, Debug, PartialEq, Eq, Structural)]
pub enum ApplyWhen {
    /// At once.
    Now,
    /// Once all pending output is written; pending input is kept.
    Drain,
    /// Once all pending output is written; pending input is discarded.
    Flush,
}

/// What leaving raw mode takes next, or what it has come to.
#[derive(Clone, Copy, Debug, PartialEq, Eq, Structural)]
pub enum RestoreAction {
    /// Apply this discipline, at the time given.
    Apply(Mode, ApplyWhen),
    /// The discipline is restored.
    Restored,
    /// Restoring failed.
    Failed(ReadlineError),
}

impl FlagBits {
    /// The input flags that raw mode switches off.
    pub open spec fn input_off(self) -> u64 {
        self.brkint | self.icrnl | self.inpck | self.istrip | self.ixon
    }

    /// The local flags that raw mode switches off.
    pub open spec fn local_off(self) -> u64 {
        self.echo | self.icanon | self.iexten | self.isig
    }
}

impl Mode {
    /// The raw discipline derived from this one: the input and local flags of
    /// raw mode off, eight-bit characters on, a read that waits for one byte
    /// and never times out, and all else as it was.
    pub open spec fn raw_spec(self, bits: FlagBits) -> Mode {
        Mode {
            input_flags: self.input_flags & !bits.input_off(),
            output_flags: self.output_flags,
            control_flags: self.control_flags | bits.cs8,
            local_flags: self.local_flags & !bits.local_off(),
            min_bytes: 1,
            read_timeout: 0,
        }
    }

    /// Derives the raw discipline from this one.
    pub fn raw(&self, bits: &FlagBits) -> (r: Mode)
        ensures
            r == self.raw_spec(*bits),
    {
        let input_off: u64 = bits.brkint | bits.icrnl | bits.inpck | bits.istrip | bits.ixon;
        let local_off: u64 = bits.echo | bits.icanon | bits.iexten | bits.isig;
        Mode {
            input_flags: self.input_flags & !input_off,
            output_flags: self.output_flags,
            control_flags: self.control_flags | bits.cs8,
            local_flags: self.local_flags & !local_off,
            min_bytes: 1,
            read_timeout: 0,
        }
    }

    /// What leaving raw mode takes, for the discipline that was captured
    /// when raw mode was entered: to apply that discipline, unchanged, once
    /// pending output is written, and then to report a failure of applying it
    /// with its error number.
    pub open spec fn restore_action(self, applied: Option<Result<(), i32>>) -> RestoreAction {
        match applied {
            None => RestoreAction::Apply(self, ApplyWhen::Drain),
            Some(Ok(())) => RestoreAction::Restored,
            Some(Err(errno)) => RestoreAction::Failed(ReadlineError::Os(errno)),
        }
    }

    /// Disable RAW mode for the terminal. The caller starts with `None`,
    /// applies the discipline it is handed, and reports how that went.
    pub fn disable_raw_mode(&self, applied: Option<Result<(), i32>>) -> (action: RestoreAction)
        ensures
            action == self.restore_action(applied),
    {
        match applied {
            None => RestoreAction::Apply(*self, ApplyWhen::Drain),
            Some(Ok(())) => RestoreAction::Restored,
            Some(Err(errno)) => RestoreAction::Failed(ReadlineError::Os(errno)),
        }
    }
}

/// In the raw discipline each of the flags that raw mode switches off is off,
/// and the bits for eight-bit characters are on.
pub proof fn lemma_raw_flags(m: Mode, bits: FlagBits)
    ensures
        m.raw_spec(bits).input_flags & bits.brkint == 0,
        m.raw_spec(bits).input_flags & bits.icrnl == 0,
        m.raw_spec(bits).input_flags & bits.inpck == 0,
        m.raw_spec(bits).input_flags & bits.istrip == 0,
        m.raw_spec(bits).input_flags & bits.ixon == 0,
        m.raw_spec(bits).control_flags & bits.cs8 == bits.cs8,
        m.raw_spec(bits).local_flags & bits.echo == 0,
        m.raw_spec(bits).local_flags & bits.icanon == 0,
        m.raw_spec(bits).local_flags & bits.iexten == 0,
        m.raw_spec(bits).local_flags & bits.isig == 0,
{
    let i = m.input_flags;
    let (a, b, c, d, e) = (bits.brkint, bits.icrnl, bits.inpck, bits.istrip, bits.ixon);
    assert((i & !(a | b | c | d | e)) & a == 0 && (i & !(a | b | c | d | e)) & b == 0 && (i & !(a
        | b | c | d | e)) & c == 0 && (i & !(a | b | c | d | e)) & d == 0 && (i & !(a | b | c | d
        | e)) & e == 0) by (bit_vector);
    let l = m.local_flags;
    let (p, q, r, s) = (bits.echo, bits.icanon, bits.iexten, bits.isig);
    assert((l & !(p | q | r | s)) & p == 0 && (l & !(p | q | r | s)) & q == 0 && (l & !(p | q | r
        | s)) & r == 0 && (l & !(p | q | r | s)) & s == 0) by (bit_vector);
    let k = m.control_flags;
    let w = bits.cs8;
    assert((k | w) & w == w) by (bit_vector);
}

/// The raw discipline keeps every flag that raw mode is not concerned with:
/// a set of bits apart from those it changes reads the same before and after.
pub proof fn lemma_raw_keeps_other_flags(m: Mode, bits: FlagBits, other: u64)
    ensures
        other & bits.input_off() == 0 ==> m.raw_spec(bits).input_flags & other == m.input_flags
            & other,
        other & bits.cs8 == 0 ==> m.raw_spec(bits).control_flags & other == m.control_flags
            & other,
        other & bits.local_off() == 0 ==> m.raw_spec(bits).local_flags & other == m.local_flags
            & other,
        m.raw_spec(bits).output_flags == m.output_flags,
{
    let i = m.input_flags;
    let x = bits.input_off();
    assert(other & x == 0 ==> (i & !x) & other == i & other) by (bit_vector);
    let l = m.local_flags;
    let y = bits.local_off();
    assert(other & y == 0 ==> (l & !y) & other == l & other) by (bit_vector);
    let k = m.control_flags;
    let w = bits.cs8;
    assert(other & w == 0 ==> (k | w) & other == k & other) by (bit_vector);
}

/// Deriving the raw discipline from a raw discipline changes nothing.
pub proof fn lemma_raw_idempotent(m: Mode, bits: FlagBits)
    ensures
        m.raw_spec(bits).raw_spec(bits) == m.raw_spec(bits),
{
    let i = m.input_flags;
    let x = bits.input_off();
    assert((i & !x) & !x == i & !x) by (bit_vector);
    let l = m.local_flags;
    let y = bits.local_off();
    assert((l & !y) & !y == l & !y) by (bit_vector);
    let k = m.control_flags;
    let w = bits.cs8;
    assert((k | w) | w == k | w) by (bit_vector);
}

} // verus!
