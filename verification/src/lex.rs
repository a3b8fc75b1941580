//! Lexicographic (code-point) order on strings.
//!
//! The account store lists its entries in ascending channel-id order, so it
//! needs a comparison whose meaning is pinned down at the specification
//! level. `lex_lt` is that order on `Seq<char>`; `str_lt` and `str_eq` are
//! the executable comparisons proved against it.

use vstd::prelude::*;

verus! {

/// Strict lexicographic order on character sequences, comparing characters
/// by code point. The empty sequence precedes every non-empty one.
pub open spec fn lex_lt(a: Seq<char>, b: Seq<char>) -> bool
    decreases a.len(),
{
    if b.len() == 0 {
        false
    } else if a.len() == 0 {
        true
    } else if a[0] == b[0] {
        lex_lt(a.subrange(1, a.len() as int), b.subrange(1, b.len() as int))
    } else {
        (a[0] as u32) < (b[0] as u32)
    }
}

pub proof fn lemma_lex_irrefl(a: Seq<char>)
    ensures
        !lex_lt(a, a),
    decreases a.len(),
{
    if a.len() > 0 {
        lemma_lex_irrefl(a.subrange(1, a.len() as int));
    }
}

pub proof fn lemma_lex_asym(a: Seq<char>, b: Seq<char>)
    requires
        lex_lt(a, b),
    ensures
        !lex_lt(b, a),
        a != b,
    decreases a.len(),
{
    if a.len() > 0 && b.len() > 0 && a[0] == b[0] {
        lemma_lex_asym(a.subrange(1, a.len() as int), b.subrange(1, b.len() as int));
        assert(a != b) by {
            if a == b {
                assert(a.subrange(1, a.len() as int) == b.subrange(1, b.len() as int));
            }
        }
    }
}

pub proof fn lemma_lex_trans(a: Seq<char>, b: Seq<char>, c: Seq<char>)
    requires
        lex_lt(a, b),
        lex_lt(b, c),
    ensures
        lex_lt(a, c),
    decreases a.len(),
{
    if a.len() > 0 {
        if a[0] == b[0] && b[0] == c[0] {
            lemma_lex_trans(
                a.subrange(1, a.len() as int),
                b.subrange(1, b.len() as int),
                c.subrange(1, c.len() as int),
            );
        }
    }
}

/// Two sequences neither of which precedes the other are equal: the order is
/// total.
pub proof fn lemma_lex_connex(a: Seq<char>, b: Seq<char>)
    requires
        !lex_lt(a, b),
        !lex_lt(b, a),
    ensures
        a == b,
    decreases a.len(),
{
    if a.len() > 0 && b.len() > 0 {
        if a[0] == b[0] {
            lemma_lex_connex(a.subrange(1, a.len() as int), b.subrange(1, b.len() as int));
            assert(a =~= b) by {
                assert(a.subrange(1, a.len() as int) =~= b.subrange(1, b.len() as int));
                assert(forall|i: int|
                    1 <= i < a.len() ==> a[i] == a.subrange(1, a.len() as int)[i - 1]);
            }
        } else {
            // Heads differ, yet neither code point is below the other: the
            // premises rule this case out.
            assert((a[0] as u32) == (b[0] as u32));
            vstd::utf8::char_u32_cast(a[0], a[0] as u32);
            vstd::utf8::char_u32_cast(b[0], b[0] as u32);
            assert(false);
        }
    } else {
        assert(a =~= b);
    }
}

/// Executable comparison, proved to decide `lex_lt` on the string views.
pub fn str_lt(a: &str, b: &str) -> (r: bool)
    ensures
        r == lex_lt(a@, b@),
    decreases a@.len(),
{
    let a_len = a.unicode_len();
    let b_len = b.unicode_len();
    if b_len == 0 {
        false
    } else if a_len == 0 {
        true
    } else {
        let ca = a.get_char(0);
        let cb = b.get_char(0);
        if ca == cb {
            str_lt(a.substring_char(1, a_len), b.substring_char(1, b_len))
        } else {
            (ca as u32) < (cb as u32)
        }
    }
}

/// Executable equality of string contents.
pub fn str_eq(a: &str, b: &str) -> (r: bool)
    ensures
        r == (a@ == b@),
{
    let below = str_lt(a, b);
    let above = str_lt(b, a);
    proof {
        if !below && !above {
            lemma_lex_connex(a@, b@);
        }
        if below {
            lemma_lex_asym(a@, b@);
        }
        if above {
            lemma_lex_asym(b@, a@);
        }
    }
    !below && !above
}

} // verus!
