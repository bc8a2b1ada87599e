//! Verified text utilities over the character views of `&str` values:
//! substring search, equality, prefix test and lexicographic order.

use vstd::prelude::*;

verus! {

/// `needle` occurs in `hay` starting at position `i`.
pub open spec fn matches_at(hay: Seq<char>, needle: Seq<char>, i: int) -> bool {
    &&& 0 <= i
    &&& i + needle.len() <= hay.len()
    &&& forall|j: int| 0 <= j < needle.len() ==> hay[i + j] == #[trigger] needle[j]
}

/// `needle` occurs somewhere in `hay`.
pub open spec fn contains_seq(hay: Seq<char>, needle: Seq<char>) -> bool {
    exists|i: int| matches_at(hay, needle, i)
}

/// `p` is a prefix of `s`.
pub open spec fn is_prefix(p: Seq<char>, s: Seq<char>) -> bool {
    matches_at(s, p, 0)
}

/// Strict lexicographic order by code point, the order `str`'s own
/// comparison uses.
pub open spec fn lex_lt(a: Seq<char>, b: Seq<char>) -> bool {
    ||| (exists|i: int|
        #![trigger a[i], b[i]]
        0 <= i < a.len() && i < b.len() && a[i] < b[i] && (forall|j: int|
            0 <= j < i ==> a[j] == b[j]))
    ||| (a.len() < b.len() && (forall|j: int| 0 <= j < a.len() ==> a[j] == b[j]))
}

pub(crate) fn match_at(hay: &str, needle: &str, i: usize) -> (r: bool)
    requires
        i + needle@.len() <= hay@.len(),
    ensures
        r == matches_at(hay@, needle@, i as int),
{
    let h = hay.unicode_len();
    let n = needle.unicode_len();
    let mut j: usize = 0;
    while j < n
        invariant
            j <= n,
            h == hay@.len(),
            n == needle@.len(),
            i + n <= hay@.len(),
            forall|y: int| 0 <= y < j ==> hay@[i + y] == #[trigger] needle@[y],
        decreases n - j,
    {
        if hay.get_char(i + j) != needle.get_char(j) {
            assert(hay@[i + j] != needle@[j as int]);
            return false;
        }
        j += 1;
    }
    true
}

/// Substring search over the character views of the two strings.
pub fn str_contains(hay: &str, needle: &str) -> (r: bool)
    ensures
        r == contains_seq(hay@, needle@),
{
    let h = hay.unicode_len();
    let n = needle.unicode_len();
    if n > h {
        assert(!contains_seq(hay@, needle@)) by {
            if contains_seq(hay@, needle@) {
                let i = choose|i: int| matches_at(hay@, needle@, i);
            }
        };
        return false;
    }
    let mut i: usize = 0;
    while i <= h - n
        invariant
            n <= h,
            h == hay@.len(),
            n == needle@.len(),
            forall|x: int| 0 <= x < i ==> !matches_at(hay@, needle@, x),
        decreases h - n + 1 - i,
    {
        if match_at(hay, needle, i) {
            return true;
        }
        i += 1;
    }
    assert(!contains_seq(hay@, needle@)) by {
        if contains_seq(hay@, needle@) {
            let x = choose|x: int| matches_at(hay@, needle@, x);
            assert(!matches_at(hay@, needle@, x));
        }
    };
    false
}

/// Equality of the character views.
pub fn str_eq(a: &str, b: &str) -> (r: bool)
    ensures
        r == (a@ == b@),
{
    let la = a.unicode_len();
    let lb = b.unicode_len();
    if la != lb {
        return false;
    }
    if match_at(a, b, 0) {
        proof {
            assert(a@ =~= b@);
        }
        true
    } else {
        false
    }
}

/// Prefix test: does `s` start with `p`?
pub fn str_starts_with(s: &str, p: &str) -> (r: bool)
    ensures
        r == is_prefix(p@, s@),
{
    let ls = s.unicode_len();
    let lp = p.unicode_len();
    if lp > ls {
        return false;
    }
    match_at(s, p, 0)
}

/// Strict lexicographic comparison of the character views.
pub fn str_lt(a: &str, b: &str) -> (r: bool)
    ensures
        r == lex_lt(a@, b@),
{
    let la = a.unicode_len();
    let lb = b.unicode_len();
    let mut i: usize = 0;
    while i < la && i < lb
        invariant
            i <= la,
            i <= lb,
            la == a@.len(),
            lb == b@.len(),
            forall|j: int| 0 <= j < i ==> a@[j] == b@[j],
        decreases la - i,
    {
        let ca = a.get_char(i);
        let cb = b.get_char(i);
        if ca < cb {
            assert(lex_lt(a@, b@)) by {
                assert(a@[i as int] < b@[i as int]);
            };
            return true;
        }
        if cb < ca {
            assert(!lex_lt(a@, b@)) by {
                assert(a@[i as int] > b@[i as int]);
                if lex_lt(a@, b@) {
                    if exists|w: int|
                        #![trigger a@[w], b@[w]]
                        0 <= w < a@.len() && w < b@.len() && a@[w] < b@[w] && (forall|j: int|
                            0 <= j < w ==> a@[j] == b@[j]) {
                        let w = choose|w: int|
                            #![trigger a@[w], b@[w]]
                            0 <= w < a@.len() && w < b@.len() && a@[w] < b@[w] && (forall|j: int|
                                0 <= j < w ==> a@[j] == b@[j]);
                        if w < i {
                            assert(a@[w] == b@[w]);
                        } else if w > i {
                            assert(a@[i as int] == b@[i as int]);
                        }
                    } else {
                        assert(a@.len() < b@.len() && (forall|j: int|
                            0 <= j < a@.len() ==> a@[j] == b@[j]));
                        assert(a@[i as int] == b@[i as int]);
                    }
                }
            };
            return false;
        }
        i += 1;
    }
    if la < lb {
        assert(lex_lt(a@, b@));
        true
    } else {
        assert(!lex_lt(a@, b@)) by {
            if lex_lt(a@, b@) {
                if exists|w: int|
                    #![trigger a@[w], b@[w]]
                    0 <= w < a@.len() && w < b@.len() && a@[w] < b@[w] && (forall|j: int|
                        0 <= j < w ==> a@[j] == b@[j]) {
                    let w = choose|w: int|
                        #![trigger a@[w], b@[w]]
                        0 <= w < a@.len() && w < b@.len() && a@[w] < b@[w] && (forall|j: int|
                            0 <= j < w ==> a@[j] == b@[j]);
                    assert(a@[w] == b@[w]);
                }
            }
        };
        false
    }
}

} // verus!
