//! Reading the standard input without a buffer in between.
//!
//! The decoder has to know whether more bytes are ready, which a buffered
//! reader hides. So the input is read by the system call itself, and this
//! module decides what each attempt comes to.

use vstd::prelude::*;
use crate::codepoint::{push_spec, CharBuffer, CharStep};
use crate::reader::Reply;

verus! {

/// Why a read failed.
#[derive(Clone, Copy, Debug, PartialEq, Eq, Structural)]
pub struct ReadFailure {
    /// The error number of the failed call.
    pub errno: i32,
    /// Whether the call was interrupted before it read anything.
    pub interrupted: bool,
}

/// What to do after an attempt to read.
#[derive(Clone, Copy, Debug, PartialEq, Eq, Structural)]
pub enum ReadStep {
    /// The call was interrupted: read again.
    Retry,
    /// The stream has ended: the read succeeded and brought nothing.
    Eof,
    /// So many bytes were read, at least one.
    Done(usize),
    /// The read failed with this error number.
    Failed(i32),
}

/// The raw standard input.
#[derive(Clone, Copy, Debug)]
pub struct StdinRaw {}

impl StdinRaw {
    /// What an attempt to read comes to.
    pub open spec fn read_spec(attempt: Result<usize, ReadFailure>) -> ReadStep {
        match attempt {
            Ok(n) => if n == 0 {
                ReadStep::Eof
            } else {
                ReadStep::Done(n)
            },
            Err(failure) => if failure.interrupted {
                ReadStep::Retry
            } else {
                ReadStep::Failed(failure.errno)
            },
        }
    }

    /// What an attempt to read one byte comes to for the decoder, with the
    /// bytes `pending` of a character that is begun: nothing yet where the
    /// call is to be tried again or the character is not complete, and
    /// otherwise the character, the end of the stream, or an error number.
    /// Bytes that are no character, and a stream that ends inside a character,
    /// give the error number `ill_formed`.
    pub open spec fn next_reply_spec(
        pending: Seq<u8>,
        attempt: Result<usize, ReadFailure>,
        byte: u8,
        ill_formed: i32,
    ) -> Option<Reply> {
        match Self::read_spec(attempt) {
            ReadStep::Retry => None,
            ReadStep::Failed(errno) => Some(Reply::Read(Err(errno))),
            ReadStep::Eof => if pending.len() > 0 {
                Some(Reply::Read(Err(ill_formed)))
            } else {
                Some(Reply::Read(Ok(None)))
            },
            ReadStep::Done(_) => match push_spec(pending, byte).1 {
                CharStep::More => None,
                CharStep::Char(c) => Some(Reply::Read(Ok(Some(c)))),
                CharStep::Invalid => Some(Reply::Read(Err(ill_formed))),
            },
        }
    }

    /// The bytes of a begun character that are kept after an attempt to read
    /// one byte: all of them while the call is to be tried again, those that
    /// the new byte leaves incomplete, and none once the attempt has come to
    /// a character, to the end of the stream or to an error.
    pub open spec fn pending_after(
        pending: Seq<u8>,
        attempt: Result<usize, ReadFailure>,
        byte: u8,
    ) -> Seq<u8> {
        match Self::read_spec(attempt) {
            ReadStep::Retry => pending,
            ReadStep::Done(_) => push_spec(pending, byte).0,
            _ => Seq::empty(),
        }
    }

    /// Decides what an attempt to read comes to: an interrupted call is tried
    /// again, any other failure is reported, a read of no bytes is the end of
    /// the stream, and any other count of bytes is final.
    pub fn read(&self, attempt: Result<usize, ReadFailure>) -> (step: ReadStep)
        ensures
            step == Self::read_spec(attempt),
    {
        match attempt {
            Ok(n) => {
                if n == 0 {
                    ReadStep::Eof
                } else {
                    ReadStep::Done(n)
                }
            },
            Err(failure) => {
                if failure.interrupted {
                    ReadStep::Retry
                } else {
                    ReadStep::Failed(failure.errno)
                }
            },
        }
    }

    /// Takes the outcome of an attempt to read one byte into `byte`, and
    /// gives the reply for the decoder once there is one. `ill_formed` is the
    /// error number to report for input that is not UTF-8.
    pub fn next_reply(
        &self,
        buffer: &mut CharBuffer,
        attempt: Result<usize, ReadFailure>,
        byte: u8,
        ill_formed: i32,
    ) -> (reply: Option<Reply>)
        ensures
            reply == Self::next_reply_spec(old(buffer)@, attempt, byte, ill_formed),
            final(buffer)@ == Self::pending_after(old(buffer)@, attempt, byte),
    {
        match self.read(attempt) {
            ReadStep::Retry => None,
            ReadStep::Failed(errno) => {
                buffer.clear();
                Some(Reply::Read(Err(errno)))
            },
            ReadStep::Eof => {
                let partial = buffer.is_partial();
                buffer.clear();
                if partial {
                    Some(Reply::Read(Err(ill_formed)))
                } else {
                    Some(Reply::Read(Ok(None)))
                }
            },
            ReadStep::Done(_) => match buffer.push(byte) {
                CharStep::More => None,
                CharStep::Char(c) => Some(Reply::Read(Ok(Some(c)))),
                CharStep::Invalid => Some(Reply::Read(Err(ill_formed))),
            },
        }
    }
}

} // verus!
