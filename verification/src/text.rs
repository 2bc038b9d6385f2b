//! Comparing text without regard to the case of ASCII letters.

use vstd::prelude::*;
use vstd::std_specs::iter::IteratorSpec;

verus! {

/// The lower-case form of an ASCII capital; every other character is itself.
pub open spec fn lower_char(c: char) -> char {
    if 'A' <= c && c <= 'Z' {
        ((c as u32) + 32) as char
    } else {
        c
    }
}

/// `s` with every ASCII capital replaced by its lower-case form.
pub open spec fn lowered(s: Seq<char>) -> Seq<char> {
    Seq::new(s.len(), |i: int| lower_char(s[i]))
}

/// Two texts spell the same word when they differ at most in the case of
/// ASCII letters.
pub open spec fn same_word(a: Seq<char>, b: Seq<char>) -> bool {
    lowered(a) == lowered(b)
}

/// Computes [`lower_char`].
pub fn to_lower(c: char) -> (r: char)
    ensures
        r == lower_char(c),
{
    if 'A' <= c && c <= 'Z' {
        let n: u8 = (c as u8) + 32;
        n as char
    } else {
        c
    }
}

/// Decides [`same_word`], in one pass over both texts.
pub fn eq_ignore_case(a: &str, b: &str) -> (r: bool)
    ensures
        r == same_word(a@, b@),
{
    broadcast use vstd::string::group_string_axioms;

    let mut rest_a = a.chars();
    let mut rest_b = b.chars();
    let ghost mut n: int = 0;
    loop
        invariant
            0 <= n <= a@.len(),
            n <= b@.len(),
            rest_a.remaining() == a@.skip(n),
            rest_b.remaining() == b@.skip(n),
            forall|j: int| 0 <= j < n ==> lower_char(a@[j]) == lower_char(b@[j]),
        decreases a@.len() - n,
    {
        let ca = rest_a.next();
        let cb = rest_b.next();
        match (ca, cb) {
            (Some(x), Some(y)) => {
                assert(x == a@[n] && y == b@[n]);
                if to_lower(x) != to_lower(y) {
                    assert(lowered(a@)[n] != lowered(b@)[n]);
                    return false;
                }
                proof {
                    assert(a@.skip(n).drop_first() =~= a@.skip(n + 1));
                    assert(b@.skip(n).drop_first() =~= b@.skip(n + 1));
                    n = n + 1;
                }
            },
            (None, None) => {
                assert(a@.len() == n && b@.len() == n);
                assert(lowered(a@) =~= lowered(b@));
                return true;
            },
            _ => {
                assert(lowered(a@).len() != lowered(b@).len());
                return false;
            },
        }
    }
}

} // verus!
