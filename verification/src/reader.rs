//! The key decoder: one key press from the characters of the input.
//!
//! The decoder does not read. It says what it needs next, a character or a
//! readiness poll, and is handed the outcome; from that it either produces a
//! key press or an error, or asks again.

use vstd::prelude::*;
use crate::error::ReadlineError;
use crate::keys::{char_to_key_press, char_to_key_press_spec, is_control_code, Key, KeyPress, ESC};
use crate::sequence::{is_sequence_prefix, sequence_key, Prefix, Resolution};

verus! {

/// The outcome of a step that the decoder asked for.
#[derive(Clone, Copy, Debug, PartialEq, Eq)]
pub enum Reply {
    /// A blocking read of one character: the character, `None` at the end of
    /// the stream, or the error number of the failed read.
    Read(Result<Option<char>, i32>),
    /// A readiness poll of the input: how many descriptors are ready, zero
    /// when the wait timed out, or the error number of the failed poll.
    Poll(Result<i32, i32>),
}

/// What the decoder needs before it can go on.
#[derive(Clone, Copy, Debug, PartialEq, Eq, Structural)]
pub enum Request {
    /// A blocking read of the next character.
    Char,
    /// A poll of the input for more bytes, waiting at most so many
    /// milliseconds.
    Poll(i32),
}

/// Where the decoder stands between two steps.
pub ghost enum ReaderView {
    /// No key is begun.
    Idle,
    /// The escape character was read, and whether more follows is not known.
    EscapeSeen,
    /// An escape sequence is being read; these are its characters so far.
    Sequence(Seq<char>),
}

/// The key press that a finished escape sequence stands for: the one of the
/// table, or the Unknown key for a sequence that the table does not hold.
pub open spec fn sequence_result(s: Seq<char>) -> KeyPress {
    match sequence_key(s) {
        Some(k) => k,
        None => KeyPress::plain_spec(Key::Unknown),
    }
}

/// Whether `s` is a finished escape sequence: it is not empty, each shorter
/// beginning of it may still grow into a recognised sequence, and `s` itself
/// may not. The decoder reads exactly such a run after an escape character.
pub open spec fn is_finished_sequence(s: Seq<char>) -> bool {
    &&& s.len() > 0
    &&& !is_sequence_prefix(s)
    &&& forall|j: int| 0 <= j < s.len() ==> is_sequence_prefix(#[trigger] s.take(j))
}

/// The result of a step: nothing yet, a key press, or an error.
pub type Outcome = Option<Result<KeyPress, ReadlineError>>;

/// The character that a read returned, or the error that it stands for: the
/// end of the stream, or the failure of the read.
pub open spec fn next_char_spec(read: Result<Option<char>, i32>) -> Result<char, ReadlineError> {
    match read {
        Ok(Some(c)) => Ok(c),
        Ok(None) => Err(ReadlineError::Eof),
        Err(errno) => Err(ReadlineError::Os(errno)),
    }
}

/// The decoder after one more character of an escape sequence, and the key
/// press if the sequence ends with it.
pub open spec fn after_sequence_char(s: Seq<char>, c: char) -> (ReaderView, Outcome) {
    match sequence_key(s.push(c)) {
        Some(k) => (ReaderView::Idle, Some(Ok(k))),
        None => if is_sequence_prefix(s.push(c)) {
            (ReaderView::Sequence(s.push(c)), None)
        } else {
            (ReaderView::Idle, Some(Ok(KeyPress::plain_spec(Key::Unknown))))
        },
    }
}

/// The decoder and its result after one reply. A reply that does not answer
/// what the decoder asked for changes nothing and gives nothing.
pub open spec fn advance(v: ReaderView, reply: Reply) -> (ReaderView, Outcome) {
    match (v, reply) {
        (ReaderView::Idle, Reply::Read(read)) => match next_char_spec(read) {
            Ok(c) => if c == ESC {
                (ReaderView::EscapeSeen, None)
            } else {
                (ReaderView::Idle, Some(Ok(char_to_key_press_spec(c))))
            },
            Err(e) => (ReaderView::Idle, Some(Err(e))),
        },
        (ReaderView::Sequence(s), Reply::Read(read)) => match next_char_spec(read) {
            Ok(c) => after_sequence_char(s, c),
            Err(e) => (ReaderView::Idle, Some(Err(e))),
        },
        (ReaderView::EscapeSeen, Reply::Poll(Ok(ready))) => if ready == 0 {
            (ReaderView::Idle, Some(Ok(KeyPress::plain_spec(Key::Esc))))
        } else {
            (ReaderView::Sequence(Seq::empty()), None)
        },
        (ReaderView::EscapeSeen, Reply::Poll(Err(errno))) => (
            ReaderView::Idle,
            Some(Err(ReadlineError::Os(errno))),
        ),
        _ => (v, None),
    }
}

/// What a decoder in state `v` asks for, with `timeout_ms` as the longest wait
/// for the bytes that may follow an escape character.
pub open spec fn wanted(v: ReaderView, timeout_ms: i32) -> Request {
    match v {
        ReaderView::EscapeSeen => Request::Poll(timeout_ms),
        _ => Request::Char,
    }
}

/// The decoder and the key presses after a run of characters that were all
/// ready to be read: whenever the decoder polls, more input is reported for as
/// long as a character is left.
pub open spec fn replay(v: ReaderView, input: Seq<char>) -> (ReaderView, Seq<KeyPress>)
    decreases input.len(),
{
    if input.len() == 0 {
        (v, Seq::empty())
    } else {
        let ready = if v is EscapeSeen {
            advance(v, Reply::Poll(Ok(1))).0
        } else {
            v
        };
        let step = advance(ready, Reply::Read(Ok(Some(input[0]))));
        let rest = replay(step.0, input.skip(1));
        match step.1 {
            Some(Ok(k)) => (rest.0, seq![k] + rest.1),
            _ => rest,
        }
    }
}

/// Console input decoder.
#[derive(Clone, Copy, Debug)]
pub struct PosixRawReader {
    phase: Phase,
}

#[derive(Clone, Copy, Debug)]
enum Phase {
    Idle,
    EscapeSeen,
    Sequence(Prefix),
}

impl PosixRawReader {
    /// Where the decoder stands.
    pub closed spec fn view(&self) -> ReaderView {
        match self.phase {
            Phase::Idle => ReaderView::Idle,
            Phase::EscapeSeen => ReaderView::EscapeSeen,
            Phase::Sequence(p) => ReaderView::Sequence(p@),
        }
    }

    /// A decoder that has begun no key. It never fails.
    pub fn new() -> (r: Result<PosixRawReader, ReadlineError>)
        ensures
            r is Ok,
            r.unwrap()@ == ReaderView::Idle,
    {
        Ok(PosixRawReader { phase: Phase::Idle })
    }

    /// What the caller has to do next and hand to `next_key`.
    pub fn request(&self, timeout_ms: i32) -> (q: Request)
        ensures
            q == wanted(self@, timeout_ms),
    {
        match self.phase {
            Phase::EscapeSeen => Request::Poll(timeout_ms),
            _ => Request::Char,
        }
    }

    /// Turns the outcome of a read into the character, or into the error that
    /// ends the decoding of this key.
    pub fn next_char(read: Result<Option<char>, i32>) -> (r: Result<char, ReadlineError>)
        ensures
            r == next_char_spec(read),
    {
        match read {
            Ok(Some(c)) => Ok(c),
            Ok(None) => Err(ReadlineError::Eof),
            Err(errno) => Err(ReadlineError::Os(errno)),
        }
    }

    /// Takes one more character of the escape sequence that is being read.
    /// Outside a sequence nothing happens.
    pub fn escape_sequence(&mut self, c: char) -> (r: Outcome)
        ensures
            old(self)@ matches ReaderView::Sequence(s) ==> (*final(self))@ == after_sequence_char(
                s,
                c,
            ).0 && r == after_sequence_char(s, c).1,
            !(old(self)@ is Sequence) ==> (*final(self))@ == old(self)@ && r.is_none(),
    {
        match self.phase {
            Phase::Sequence(p) => match p.escape_sequence(c) {
                Resolution::Key(k) => {
                    self.phase = Phase::Idle;
                    Some(Ok(k))
                },
                Resolution::More(longer) => {
                    self.phase = Phase::Sequence(longer);
                    None
                },
            },
            _ => None,
        }
    }

    /// Hands the decoder the outcome of the step it asked for. The result is a
    /// key press once one is complete, an error where the step failed or the
    /// stream ended, and `None` while more is needed.
    pub fn next_key(&mut self, reply: Reply) -> (r: Outcome)
        ensures
            (*final(self))@ == advance(old(self)@, reply).0,
            r == advance(old(self)@, reply).1,
    {
        match (self.phase, reply) {
            (Phase::Idle, Reply::Read(read)) => match Self::next_char(read) {
                Ok(c) => {
                    if c == ESC {
                        self.phase = Phase::EscapeSeen;
                        None
                    } else {
                        Some(Ok(char_to_key_press(c)))
                    }
                },
                Err(e) => Some(Err(e)),
            },
            (Phase::Sequence(_), Reply::Read(read)) => match Self::next_char(read) {
                Ok(c) => self.escape_sequence(c),
                Err(e) => {
                    self.phase = Phase::Idle;
                    Some(Err(e))
                },
            },
            (Phase::EscapeSeen, Reply::Poll(Ok(ready))) => {
                if ready == 0 {
                    self.phase = Phase::Idle;
                    Some(Ok(KeyPress::plain(Key::Esc)))
                } else {
                    self.phase = Phase::Sequence(Prefix::new());
                    None
                }
            },
            (Phase::EscapeSeen, Reply::Poll(Err(errno))) => {
                self.phase = Phase::Idle;
                Some(Err(ReadlineError::Os(errno)))
            },
            _ => None,
        }
    }

    /// Decodes a run of characters that were all ready to be read, so that a
    /// poll after an escape character finds more input for as long as a
    /// character is left. A key that the run leaves unfinished stays begun.
    pub fn next_keys(&mut self, input: &Vec<char>) -> (keys: Vec<KeyPress>)
        ensures
            (*final(self))@ == replay(old(self)@, input@).0,
            keys@ == replay(old(self)@, input@).1,
    {
        let mut keys: Vec<KeyPress> = Vec::new();
        let mut i: usize = 0;
        assert(input@.skip(0) =~= input@);
        while i < input.len()
            invariant
                i <= input.len(),
                replay(old(self)@, input@).0 == replay(self@, input@.skip(i as int)).0,
                replay(old(self)@, input@).1 == keys@ + replay(self@, input@.skip(i as int)).1,
            decreases input.len() - i,
        {
            let ghost rest = input@.skip(i as int);
            let ghost before = keys@;
            assert(rest[0] == input@[i as int]);
            assert(rest.skip(1) =~= input@.skip(i + 1));
            if let Request::Poll(_) = self.request(0) {
                let _ = self.next_key(Reply::Poll(Ok(1)));
            }
            match self.next_key(Reply::Read(Ok(Some(input[i])))) {
                Some(Ok(k)) => {
                    keys.push(k);
                    assert(keys@ + replay(self@, rest.skip(1)).1 =~= before + (seq![k] + replay(
                        self@,
                        rest.skip(1),
                    ).1));
                },
                _ => {},
            }
            i += 1;
        }
        assert(keys@ + Seq::<KeyPress>::empty() =~= keys@);
        keys
    }
}

/// A reply that completes a key, or fails, leaves the decoder with no key
/// begun: the characters of a sequence that was not recognised are spent, and
/// the next character starts a new key.
pub proof fn lemma_outcome_leaves_idle(v: ReaderView, reply: Reply)
    ensures
        advance(v, reply).1.is_some() ==> advance(v, reply).0 == ReaderView::Idle,
{
}

/// Input without an escape character gives one key press for each character:
/// the codes 1 to 26 give the letters `A` to `Z` with control, the delete code
/// gives `?` with control, and a character that is no control code gives
/// itself with no modifier.
pub proof fn lemma_one_key_per_char(input: Seq<char>)
    requires
        forall|i: int| 0 <= i < input.len() ==> input[i] != ESC,
    ensures
        replay(ReaderView::Idle, input).0 == ReaderView::Idle,
        replay(ReaderView::Idle, input).1.len() == input.len(),
        forall|i: int|
            0 <= i < input.len() ==> #[trigger] replay(ReaderView::Idle, input).1[i]
                == char_to_key_press_spec(input[i]),
        forall|i: int|
            0 <= i < input.len() && 1 <= input[i] as u32 <= 26 ==> #[trigger] replay(
                ReaderView::Idle,
                input,
            ).1[i] == KeyPress::ctrl_spec(Key::Char(((input[i] as u8 + 64) as u8) as char)),
        forall|i: int|
            0 <= i < input.len() && input[i] as u32 == 0x7f ==> #[trigger] replay(
                ReaderView::Idle,
                input,
            ).1[i] == KeyPress::ctrl_spec(Key::Char('?')),
        forall|i: int|
            0 <= i < input.len() && !is_control_code(input[i]) ==> #[trigger] replay(
                ReaderView::Idle,
                input,
            ).1[i] == KeyPress::plain_spec(Key::Char(input[i])),
    decreases input.len(),
{
    if input.len() > 0 {
        let rest = input.skip(1);
        lemma_one_key_per_char(rest);
        let tail = replay(ReaderView::Idle, rest).1;
        let all = replay(ReaderView::Idle, input).1;
        assert(all == seq![char_to_key_press_spec(input[0])] + tail);
        assert forall|i: int| 0 <= i < input.len() implies #[trigger] all[i]
            == char_to_key_press_spec(input[i]) by {
            if i > 0 {
                assert(all[i] == tail[i - 1]);
                assert(rest[i - 1] == input[i]);
            }
        }
    }
}

/// Decoding a run of ready characters in two parts gives what decoding it in
/// one part gives.
pub proof fn lemma_replay_concat(v: ReaderView, a: Seq<char>, b: Seq<char>)
    ensures
        replay(v, a + b).0 == replay(replay(v, a).0, b).0,
        replay(v, a + b).1 == replay(v, a).1 + replay(replay(v, a).0, b).1,
    decreases a.len(),
{
    if a.len() == 0 {
        assert(a + b =~= b);
        assert(Seq::<KeyPress>::empty() + replay(v, b).1 =~= replay(v, b).1);
    } else {
        let ready = if v is EscapeSeen {
            advance(v, Reply::Poll(Ok(1))).0
        } else {
            v
        };
        let step = advance(ready, Reply::Read(Ok(Some(a[0]))));
        assert((a + b)[0] == a[0]);
        assert((a + b).skip(1) =~= a.skip(1) + b);
        lemma_replay_concat(step.0, a.skip(1), b);
        let first = replay(step.0, a.skip(1));
        let second = replay(first.0, b);
        match step.1 {
            Some(Ok(k)) => {
                assert((seq![k] + first.1) + second.1 =~= seq![k] + (first.1 + second.1));
            },
            _ => {},
        }
    }
}

/// Inside an escape sequence of which `s` was read, the characters that
/// finish it give one key press, that of the whole sequence, and leave the
/// decoder with no key begun.
pub proof fn lemma_sequence_run(s: Seq<char>, t: Seq<char>)
    requires
        is_sequence_prefix(s),
        t.len() > 0,
        !is_sequence_prefix(s + t),
        forall|j: int| 0 <= j < t.len() ==> is_sequence_prefix(#[trigger] (s + t.take(j))),
    ensures
        replay(ReaderView::Sequence(s), t) == (ReaderView::Idle, seq![sequence_result(s + t)]),
    decreases t.len(),
{
    let longer = s.push(t[0]);
    let rest = t.skip(1);
    if t.len() == 1 {
        assert(longer =~= s + t);
        assert(replay(ReaderView::Idle, rest).1 =~= Seq::<KeyPress>::empty());
        assert(seq![sequence_result(s + t)] + Seq::<KeyPress>::empty() =~= seq![
            sequence_result(s + t),
        ]);
    } else {
        assert(longer =~= s + t.take(1));
        assert(is_sequence_prefix(longer));
        if sequence_key(longer).is_some() {
            crate::sequence::lemma_key_is_no_prefix(longer);
        }
        assert(longer + rest =~= s + t);
        assert forall|j: int| 0 <= j < rest.len() implies is_sequence_prefix(
            #[trigger] (longer + rest.take(j)),
        ) by {
            assert(longer + rest.take(j) =~= s + t.take(j + 1));
        }
        lemma_sequence_run(longer, rest);
    }
}

/// An escape character followed at once by a finished sequence gives one key
/// press: the key of the table where the sequence is recognised, the Unknown
/// key where it is not. The decoder has then begun no key, so whatever
/// follows is decoded as if nothing had gone before.
pub proof fn lemma_escape_sequence_decodes(s: Seq<char>, following: Seq<char>)
    requires
        is_finished_sequence(s),
    ensures
        replay(ReaderView::Idle, seq![ESC] + s) == (ReaderView::Idle, seq![sequence_result(s)]),
        replay(ReaderView::Idle, seq![ESC] + s + following).0 == replay(
            ReaderView::Idle,
            following,
        ).0,
        replay(ReaderView::Idle, seq![ESC] + s + following).1 == seq![sequence_result(s)] + replay(
            ReaderView::Idle,
            following,
        ).1,
{
    let empty = Seq::<char>::empty();
    assert forall|j: int| 0 <= j < s.len() implies is_sequence_prefix(
        #[trigger] (empty + s.take(j)),
    ) by {
        assert(empty + s.take(j) =~= s.take(j));
    }
    assert(empty + s =~= s);
    lemma_sequence_run(empty, s);
    let head = seq![ESC];
    assert(replay(ReaderView::Idle, head) == (ReaderView::EscapeSeen, Seq::<KeyPress>::empty())) by {
        assert(head[0] == ESC);
        assert(head.skip(1).len() == 0);
        assert(replay(ReaderView::EscapeSeen, head.skip(1)) == (
            ReaderView::EscapeSeen,
            Seq::<KeyPress>::empty(),
        ));
    }
    lemma_replay_concat(ReaderView::Idle, head, s);
    assert(replay(ReaderView::EscapeSeen, s) == replay(ReaderView::Sequence(empty), s)) by {
        assert(s.len() > 0);
    }
    assert(Seq::<KeyPress>::empty() + seq![sequence_result(s)] =~= seq![sequence_result(s)]);
    lemma_replay_concat(ReaderView::Idle, head + s, following);
}

} // verus!
