//! The escape sequences that a terminal sends for keys that are no character.
//!
//! A sequence is the run of characters that follows the escape character. The
//! table of the sequences that stand for a key is `sequence_key`; the runs that
//! may still grow into one are those of `is_sequence_prefix`.

use vstd::prelude::*;
use crate::keys::{Key, KeyPress};

verus! {

/// The key named by the final letter of a cursor sequence.
pub open spec fn cursor_key(c: char) -> Option<Key> {
    if c == 'A' {
        Some(Key::Up)
    } else if c == 'B' {
        Some(Key::Down)
    } else if c == 'C' {
        Some(Key::Right)
    } else if c == 'D' {
        Some(Key::Left)
    } else if c == 'F' {
        Some(Key::End)
    } else if c == 'H' {
        Some(Key::Home)
    } else {
        None
    }
}

/// The key named by the digit of a sequence that ends in a tilde.
pub open spec fn editing_key(d: char) -> Option<Key> {
    if d == '1' || d == '7' {
        Some(Key::Home)
    } else if d == '3' {
        Some(Key::Delete)
    } else if d == '4' || d == '8' {
        Some(Key::End)
    } else if d == '5' {
        Some(Key::PageUp)
    } else if d == '6' {
        Some(Key::PageDown)
    } else {
        None
    }
}

/// The character that a key sent after the escape character stands for when
/// held with alt: backspace, delete, the two angle brackets, and ten letters,
/// which are reported in upper case.
pub open spec fn meta_char(c: char) -> Option<char> {
    if c == '\x08' || c == '\x7f' || c == '<' || c == '>' {
        Some(c)
    } else if c == 'b' || c == 'B' {
        Some('B')
    } else if c == 'c' || c == 'C' {
        Some('C')
    } else if c == 'd' || c == 'D' {
        Some('D')
    } else if c == 'f' || c == 'F' {
        Some('F')
    } else if c == 'l' || c == 'L' {
        Some('L')
    } else if c == 't' || c == 'T' {
        Some('T')
    } else if c == 'u' || c == 'U' {
        Some('U')
    } else if c == 'y' || c == 'Y' {
        Some('Y')
    } else {
        None
    }
}

/// Whether `s` begins with the three characters `[1;`.
pub open spec fn has_modifier_prefix(s: Seq<char>) -> bool {
    s.len() >= 3 && s[0] == '[' && s[1] == '1' && s[2] == ';'
}

/// The key press that the complete sequence `s` stands for, if it is one of
/// the recognised sequences.
pub open spec fn sequence_key(s: Seq<char>) -> Option<KeyPress> {
    if s.len() == 1 {
        match meta_char(s[0]) {
            Some(c) => Some(KeyPress::alt_spec(Key::Char(c))),
            None => None,
        }
    } else if s.len() == 2 && (s[0] == '[' || s[0] == 'O') {
        match cursor_key(s[1]) {
            Some(k) => Some(KeyPress::plain_spec(k)),
            None => None,
        }
    } else if s.len() == 3 && s[0] == '[' && s[2] == '~' {
        match editing_key(s[1]) {
            Some(k) => Some(KeyPress::plain_spec(k)),
            None => None,
        }
    } else if s.len() == 5 && has_modifier_prefix(s) && s[3] == '3' {
        match cursor_key(s[4]) {
            Some(k) => Some(KeyPress::alt_spec(k)),
            None => None,
        }
    } else if s.len() == 5 && has_modifier_prefix(s) && s[3] == '5' {
        match cursor_key(s[4]) {
            Some(k) => Some(KeyPress::ctrl_spec(k)),
            None => None,
        }
    } else {
        None
    }
}

/// Whether `s` is the beginning of a recognised sequence and not yet all of it.
pub open spec fn is_sequence_prefix(s: Seq<char>) -> bool {
    ||| s.len() == 0
    ||| (s.len() == 1 && (s[0] == '[' || s[0] == 'O'))
    ||| (s.len() == 2 && s[0] == '[' && editing_key(s[1]).is_some())
    ||| (s.len() == 3 && has_modifier_prefix(s))
    ||| (s.len() == 4 && has_modifier_prefix(s) && (s[3] == '3' || s[3] == '5'))
}

/// The prefixes are the beginnings of the table's rows: a run of characters is
/// one exactly if some further characters complete it to a recognised sequence.
pub proof fn lemma_prefix_iff_completable(s: Seq<char>)
    ensures
        is_sequence_prefix(s) <==> exists|t: Seq<char>|
            t.len() > 0 && sequence_key(#[trigger] (s + t)).is_some(),
{
    if is_sequence_prefix(s) {
        let t = if s.len() == 0 {
            seq!['<']
        } else if s.len() == 2 {
            seq!['~']
        } else if s.len() == 3 {
            seq!['3', 'A']
        } else {
            seq!['A']
        };
        assert(t.len() > 0);
        assert((s + t).len() == s.len() + t.len());
        assert(forall|i: int| 0 <= i < s.len() ==> (s + t)[i] == s[i]);
        assert(forall|i: int| 0 <= i < t.len() ==> (s + t)[s.len() + i] == t[i]);
        assert((s + t)[s.len() as int] == t[0]);
        if s.len() == 3 {
            assert((s + t)[4] == t[1]);
        }
        assert(sequence_key(s + t).is_some());
    }
    if exists|t: Seq<char>| t.len() > 0 && sequence_key(#[trigger] (s + t)).is_some() {
        let t = choose|t: Seq<char>| t.len() > 0 && sequence_key(#[trigger] (s + t)).is_some();
        let u = s + t;
        assert(u.len() == s.len() + t.len());
        assert(forall|i: int| 0 <= i < s.len() ==> u[i] == s[i]);
        if s.len() == 2 && u.len() == 3 {
            assert(s[1] == u[1]);
        }
        assert(is_sequence_prefix(s));
    }
}

/// No row of the table is the beginning of another: a recognised sequence
/// cannot grow into a different one.
pub proof fn lemma_key_is_no_prefix(s: Seq<char>)
    requires
        sequence_key(s).is_some(),
    ensures
        !is_sequence_prefix(s),
{
}

/// What a sequence has come to once one more character was read.
pub enum Resolution {
    /// The sequence is complete, recognised or not.
    Key(KeyPress),
    /// The sequence may still grow into a recognised one.
    More(Prefix),
}

/// The characters of a sequence read so far, while they can still grow into a
/// recognised sequence.
#[derive(Clone, Copy, Debug, PartialEq, Eq)]
pub struct Prefix {
    shape: Shape,
}

#[derive(Clone, Copy, Debug, PartialEq, Eq)]
enum Shape {
    Empty,
    Csi,
    Ss3,
    CsiDigit(char),
    CsiModifier,
    CsiModified(char),
}

impl Prefix {
    #[verifier::type_invariant]
    closed spec fn wf(self) -> bool {
        match self.shape {
            Shape::CsiDigit(d) => editing_key(d).is_some(),
            Shape::CsiModified(m) => m == '3' || m == '5',
            _ => true,
        }
    }

    /// The characters read so far.
    pub closed spec fn view(self) -> Seq<char> {
        match self.shape {
            Shape::Empty => seq![],
            Shape::Csi => seq!['['],
            Shape::Ss3 => seq!['O'],
            Shape::CsiDigit(d) => seq!['[', d],
            Shape::CsiModifier => seq!['[', '1', ';'],
            Shape::CsiModified(m) => seq!['[', '1', ';', m],
        }
    }

    /// The prefix with nothing read yet.
    pub fn new() -> (p: Prefix)
        ensures
            p@ == Seq::<char>::empty(),
    {
        Prefix { shape: Shape::Empty }
    }

    /// Reads one more character of the sequence. The sequence ends with the
    /// key of the table where the characters read are one of its rows, goes on
    /// where they begin a row, and ends with the Unknown key otherwise; no
    /// character beyond `c` is looked at.
    pub fn escape_sequence(self, c: char) -> (r: Resolution)
        ensures
            sequence_key(self@.push(c)).is_some() ==> r == Resolution::Key(
                sequence_key(self@.push(c)).unwrap(),
            ),
            sequence_key(self@.push(c)).is_none() && is_sequence_prefix(self@.push(c)) ==> (r matches Resolution::More(p)
                && p@ == self@.push(c)),
            sequence_key(self@.push(c)).is_none() && !is_sequence_prefix(self@.push(c)) ==> r
                == Resolution::Key(KeyPress::plain_spec(Key::Unknown)),
    {
        proof {
            use_type_invariant(self);
        }
        let ghost s = self@.push(c);
        match self.shape {
            Shape::Empty => {
                if c == '[' {
                    let p = Prefix { shape: Shape::Csi };
                    assert(p@ =~= s);
                    Resolution::More(p)
                } else if c == 'O' {
                    let p = Prefix { shape: Shape::Ss3 };
                    assert(p@ =~= s);
                    Resolution::More(p)
                } else {
                    match meta_key(c) {
                        Some(k) => Resolution::Key(KeyPress::alt(Key::Char(k))),
                        None => Resolution::Key(KeyPress::plain(Key::Unknown)),
                    }
                }
            },
            Shape::Csi => {
                if c == '1' || c == '3' || c == '4' || c == '5' || c == '6' || c == '7' || c
                    == '8' {
                    let p = Prefix { shape: Shape::CsiDigit(c) };
                    assert(p@ =~= s);
                    Resolution::More(p)
                } else {
                    cursor(c, false, false)
                }
            },
            Shape::Ss3 => cursor(c, false, false),
            Shape::CsiDigit(d) => {
                if c == '~' {
                    match editing(d) {
                        Some(k) => Resolution::Key(KeyPress::plain(k)),
                        None => Resolution::Key(KeyPress::plain(Key::Unknown)),
                    }
                } else if d == '1' && c == ';' {
                    let p = Prefix { shape: Shape::CsiModifier };
                    assert(p@ =~= s);
                    Resolution::More(p)
                } else {
                    Resolution::Key(KeyPress::plain(Key::Unknown))
                }
            },
            Shape::CsiModifier => {
                if c == '3' || c == '5' {
                    let p = Prefix { shape: Shape::CsiModified(c) };
                    assert(p@ =~= s);
                    Resolution::More(p)
                } else {
                    Resolution::Key(KeyPress::plain(Key::Unknown))
                }
            },
            Shape::CsiModified(m) => cursor(c, m == '5', m == '3'),
        }
    }
}

/// The key press for the final letter of a cursor sequence with the given
/// modifiers, or the Unknown key where the letter names no key.
fn cursor(c: char, ctrl: bool, alt: bool) -> (r: Resolution)
    ensures
        r == Resolution::Key(
            match cursor_key(c) {
                Some(k) => (KeyPress { key: k, ctrl, alt }),
                None => KeyPress::plain_spec(Key::Unknown),
            },
        ),
{
    let key = if c == 'A' {
        Key::Up
    } else if c == 'B' {
        Key::Down
    } else if c == 'C' {
        Key::Right
    } else if c == 'D' {
        Key::Left
    } else if c == 'F' {
        Key::End
    } else if c == 'H' {
        Key::Home
    } else {
        return Resolution::Key(KeyPress::plain(Key::Unknown));
    };
    Resolution::Key(KeyPress { key, ctrl, alt })
}

fn editing(d: char) -> (k: Option<Key>)
    ensures
        k == editing_key(d),
{
    if d == '1' || d == '7' {
        Some(Key::Home)
    } else if d == '3' {
        Some(Key::Delete)
    } else if d == '4' || d == '8' {
        Some(Key::End)
    } else if d == '5' {
        Some(Key::PageUp)
    } else if d == '6' {
        Some(Key::PageDown)
    } else {
        None
    }
}

fn meta_key(c: char) -> (k: Option<char>)
    ensures
        k == meta_char(c),
{
    if c == '\x08' || c == '\x7f' || c == '<' || c == '>' {
        Some(c)
    } else if c == 'b' || c == 'B' {
        Some('B')
    } else if c == 'c' || c == 'C' {
        Some('C')
    } else if c == 'd' || c == 'D' {
        Some('D')
    } else if c == 'f' || c == 'F' {
        Some('F')
    } else if c == 'l' || c == 'L' {
        Some('L')
    } else if c == 't' || c == 'T' {
        Some('T')
    } else if c == 'u' || c == 'U' {
        Some('U')
    } else if c == 'y' || c == 'Y' {
        Some('Y')
    } else {
        None
    }
}

} // verus!
