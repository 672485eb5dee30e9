//! Text comparison on `str` values, stated over their character sequences.

use vstd::prelude::*;
use vstd::std_specs::iter::IteratorSpec;

verus! {

/// The ASCII lower-case form of a character, as a code point: `A`..`Z` map to
/// `a`..`z`, every other character maps to itself.
pub open spec fn ascii_fold(c: char) -> u32 {
    if 'A' <= c && c <= 'Z' {
        (c as u32 + 32) as u32
    } else {
        c as u32
    }
}

/// Two texts match when they have the same length and agree character by
/// character once ASCII letters are folded to lower case.
pub open spec fn eq_ignore_ascii_case(a: Seq<char>, b: Seq<char>) -> bool {
    &&& a.len() == b.len()
    &&& forall|i: int| 0 <= i < a.len() ==> ascii_fold(#[trigger] a[i]) == ascii_fold(b[i])
}

/// Case-insensitive matching is reflexive.
pub proof fn law_matching_is_reflexive(a: Seq<char>)
    ensures
        eq_ignore_ascii_case(a, a),
{
}

/// Case-insensitive matching is symmetric.
pub proof fn law_matching_is_symmetric(a: Seq<char>, b: Seq<char>)
    ensures
        eq_ignore_ascii_case(a, b) == eq_ignore_ascii_case(b, a),
{
    if eq_ignore_ascii_case(a, b) {
        assert forall|i: int| 0 <= i < b.len() implies ascii_fold(#[trigger] b[i]) == ascii_fold(
            a[i],
        ) by {
            assert(ascii_fold(a[i]) == ascii_fold(b[i]));
        }
    }
    if eq_ignore_ascii_case(b, a) {
        assert forall|i: int| 0 <= i < a.len() implies ascii_fold(#[trigger] a[i]) == ascii_fold(
            b[i],
        ) by {
            assert(ascii_fold(b[i]) == ascii_fold(a[i]));
        }
    }
}

/// Case-insensitive matching is transitive.
pub proof fn law_matching_is_transitive(a: Seq<char>, b: Seq<char>, c: Seq<char>)
    requires
        eq_ignore_ascii_case(a, b),
        eq_ignore_ascii_case(b, c),
    ensures
        eq_ignore_ascii_case(a, c),
{
    assert forall|i: int| 0 <= i < a.len() implies ascii_fold(#[trigger] a[i]) == ascii_fold(
        c[i],
    ) by {
        assert(ascii_fold(a[i]) == ascii_fold(b[i]));
        assert(ascii_fold(b[i]) == ascii_fold(c[i]));
    }
}

/// A text with each ASCII letter in upper case.
pub open spec fn ascii_uppercase(a: Seq<char>) -> Seq<char> {
    Seq::new(
        a.len(),
        |i: int|
            if 'a' <= a[i] && a[i] <= 'z' {
                ((a[i] as u32 - 32) as u32) as char
            } else {
                a[i]
            },
    )
}

/// A text with each ASCII letter in lower case.
pub open spec fn ascii_lowercase(a: Seq<char>) -> Seq<char> {
    Seq::new(
        a.len(),
        |i: int|
            if 'A' <= a[i] && a[i] <= 'Z' {
                ((a[i] as u32 + 32) as u32) as char
            } else {
                a[i]
            },
    )
}

/// A text matches itself in upper case and in lower case, and these two
/// match each other.
pub proof fn law_case_does_not_matter(a: Seq<char>)
    ensures
        eq_ignore_ascii_case(a, ascii_uppercase(a)),
        eq_ignore_ascii_case(a, ascii_lowercase(a)),
        eq_ignore_ascii_case(ascii_uppercase(a), ascii_lowercase(a)),
{
    let up = ascii_uppercase(a);
    let low = ascii_lowercase(a);
    assert forall|i: int| 0 <= i < a.len() implies ascii_fold(#[trigger] a[i]) == ascii_fold(up[i])
        && ascii_fold(a[i]) == ascii_fold(low[i]) by {
        let c = a[i];
        if 'a' <= c && c <= 'z' {
            let u = (c as u32 - 32) as u32;
            assert(65 <= u <= 90);
            assert((u as char) as u32 == u);
        } else if 'A' <= c && c <= 'Z' {
            let l = (c as u32 + 32) as u32;
            assert(97 <= l <= 122);
            assert((l as char) as u32 == l);
        }
    }
    assert forall|i: int| 0 <= i < up.len() implies ascii_fold(#[trigger] up[i]) == ascii_fold(
        low[i],
    ) by {
        assert(ascii_fold(a[i]) == ascii_fold(up[i]));
        assert(ascii_fold(a[i]) == ascii_fold(low[i]));
    }
}

fn fold(c: char) -> (r: u32)
    ensures
        r == ascii_fold(c),
{
    let u: u32 = c as u32;
    if 65 <= u && u <= 90 {
        u + 32
    } else {
        u
    }
}

/// Whether two strings hold the same characters.
pub fn same_text(a: &str, b: &str) -> (r: bool)
    ensures
        r == (a@ == b@),
{
    let mut rest_a = a.chars();
    let mut rest_b = b.chars();
    let ghost mut k: int = 0;
    loop
        invariant
            0 <= k <= a@.len(),
            k <= b@.len(),
            rest_a.remaining() == a@.skip(k),
            rest_b.remaining() == b@.skip(k),
            a@.take(k) == b@.take(k),
        decreases a@.len() - k,
    {
        let x = rest_a.next();
        let y = rest_b.next();
        match (x, y) {
            (None, None) => {
                assert(a@.take(k) == a@);
                assert(b@.take(k) == b@);
                return true;
            },
            (Some(c), Some(d)) => {
                if c != d {
                    assert(a@[k] != b@[k]);
                    return false;
                }
                proof {
                    assert(a@.take(k + 1) == a@.take(k).push(a@[k]));
                    assert(b@.take(k + 1) == b@.take(k).push(b@[k]));
                    k = k + 1;
                }
            },
            _ => {
                assert(a@.len() != b@.len());
                return false;
            },
        }
    }
}

/// Whether two strings match once ASCII letters are folded to one case.
pub fn same_text_ignoring_ascii_case(a: &str, b: &str) -> (r: bool)
    ensures
        r == eq_ignore_ascii_case(a@, b@),
{
    let mut rest_a = a.chars();
    let mut rest_b = b.chars();
    let ghost mut k: int = 0;
    loop
        invariant
            0 <= k <= a@.len(),
            k <= b@.len(),
            rest_a.remaining() == a@.skip(k),
            rest_b.remaining() == b@.skip(k),
            forall|i: int| 0 <= i < k ==> ascii_fold(#[trigger] a@[i]) == ascii_fold(b@[i]),
        decreases a@.len() - k,
    {
        let x = rest_a.next();
        let y = rest_b.next();
        match (x, y) {
            (None, None) => {
                return true;
            },
            (Some(c), Some(d)) => {
                if fold(c) != fold(d) {
                    assert(ascii_fold(a@[k]) != ascii_fold(b@[k]));
                    return false;
                }
                proof {
                    k = k + 1;
                }
            },
            _ => {
                return false;
            },
        }
    }
}

} // verus!
