//! What a terminal can do, judged by the name of its type.

use vstd::prelude::*;
use vstd::string::*;

verus! {

/// The code of `c`, with the upper-case ASCII letters folded to lower case.
pub open spec fn ascii_lower(c: char) -> u32 {
    if 'A' <= c <= 'Z' {
        (c as u32 + 32) as u32
    } else {
        c as u32
    }
}

/// Whether two texts are equal once the case of ASCII letters is ignored.
pub open spec fn eq_ignore_ascii_case(a: Seq<char>, b: Seq<char>) -> bool {
    &&& a.len() == b.len()
    &&& forall|i: int| 0 <= i < a.len() ==> ascii_lower(#[trigger] a[i]) == ascii_lower(b[i])
}

/// The terminal types that cannot be put to raw mode: `dumb`, `cons25`, `emacs`.
pub open spec fn unsupported_terms() -> Seq<Seq<char>> {
    seq![
        seq!['d', 'u', 'm', 'b'],
        seq!['c', 'o', 'n', 's', '2', '5'],
        seq!['e', 'm', 'a', 'c', 's'],
    ]
}

/// Whether `name` is, in any mix of cases, one of the unsupported terminal
/// types.
pub open spec fn is_unsupported_name(name: Seq<char>) -> bool {
    exists|k: int|
        0 <= k < unsupported_terms().len() && eq_ignore_ascii_case(
            #[trigger] unsupported_terms()[k],
            name,
        )
}

fn lower(c: char) -> (code: u32)
    ensures
        code == ascii_lower(c),
{
    let code: u32 = c as u32;
    if 65 <= code && code <= 90 {
        code + 32
    } else {
        code
    }
}

/// Compares two texts, ignoring the case of ASCII letters.
pub fn same_ignoring_case(a: &str, b: &str) -> (same: bool)
    ensures
        same == eq_ignore_ascii_case(a@, b@),
{
    let n: usize = a.unicode_len();
    if n != b.unicode_len() {
        return false;
    }
    let mut i: usize = 0;
    while i < n
        invariant
            i <= n,
            n == a@.len(),
            n == b@.len(),
            forall|j: int| 0 <= j < i ==> ascii_lower(#[trigger] a@[j]) == ascii_lower(b@[j]),
        decreases n - i,
    {
        if lower(a.get_char(i)) != lower(b.get_char(i)) {
            return false;
        }
        i += 1;
    }
    true
}

/// Whether the terminal type named by `term` is known not to support raw
/// mode. The name is compared without regard to case; with no name, or an
/// empty one, the terminal counts as supported.
pub fn is_unsupported_term(term: Option<&str>) -> (unsupported: bool)
    ensures
        unsupported == (term matches Some(name) && is_unsupported_name(name@)),
{
    match term {
        Some(name) => {
            proof {
                reveal_strlit("dumb");
                reveal_strlit("cons25");
                reveal_strlit("emacs");
                assert("dumb"@ =~= unsupported_terms()[0]);
                assert("cons25"@ =~= unsupported_terms()[1]);
                assert("emacs"@ =~= unsupported_terms()[2]);
            }
            same_ignoring_case("dumb", name) || same_ignoring_case("cons25", name)
                || same_ignoring_case("emacs", name)
        },
        None => false,
    }
}

/// The answer does not depend on the case of the name: two names that differ
/// in the case of ASCII letters only are both unsupported or both supported.
pub proof fn lemma_unsupported_ignores_case(a: Seq<char>, b: Seq<char>)
    requires
        eq_ignore_ascii_case(a, b),
    ensures
        is_unsupported_name(a) == is_unsupported_name(b),
{
    if is_unsupported_name(a) {
        let k = choose|k: int|
            0 <= k < unsupported_terms().len() && eq_ignore_ascii_case(
                #[trigger] unsupported_terms()[k],
                a,
            );
        assert(eq_ignore_ascii_case(unsupported_terms()[k], b));
    }
    if is_unsupported_name(b) {
        let k = choose|k: int|
            0 <= k < unsupported_terms().len() && eq_ignore_ascii_case(
                #[trigger] unsupported_terms()[k],
                b,
            );
        assert(eq_ignore_ascii_case(unsupported_terms()[k], a));
    }
}

/// No name on the list is empty, so an empty name is supported.
pub proof fn lemma_empty_name_is_supported()
    ensures
        !is_unsupported_name(Seq::empty()),
{
}

} // verus!
