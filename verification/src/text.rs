//! Character-level text helpers: exact string equality, trimming of
//! trailing whitespace (output comparisons trim only trailing, never
//! leading, whitespace), and splitting off the first `:`-separated
//! segment of a search-path string.

use vstd::prelude::*;

verus! {

/// The characters of the Unicode `White_Space` property.
pub open spec fn is_ws_char(c: char) -> bool {
    c == ' ' || c == '\t' || c == '\n' || c == '\r' || c == '\u{0b}' || c == '\u{0c}'
        || c == '\u{85}' || c == '\u{a0}' || c == '\u{1680}' || c == '\u{2000}'
        || c == '\u{2001}' || c == '\u{2002}' || c == '\u{2003}' || c == '\u{2004}'
        || c == '\u{2005}' || c == '\u{2006}' || c == '\u{2007}' || c == '\u{2008}'
        || c == '\u{2009}' || c == '\u{200a}' || c == '\u{2028}' || c == '\u{2029}'
        || c == '\u{202f}' || c == '\u{205f}' || c == '\u{3000}'
}

/// `s` with every trailing whitespace character removed.
pub open spec fn trim_end_ws(s: Seq<char>) -> Seq<char>
    decreases s.len(),
{
    if s.len() > 0 && is_ws_char(s[s.len() - 1]) {
        trim_end_ws(s.drop_last())
    } else {
        s
    }
}

pub(crate) fn is_ws(c: char) -> (r: bool)
    ensures
        r == is_ws_char(c),
{
    match c {
        ' ' | '\t' | '\n' | '\r' | '\u{0b}' | '\u{0c}' | '\u{85}' | '\u{a0}' | '\u{1680}'
            | '\u{2000}' | '\u{2001}' | '\u{2002}' | '\u{2003}' | '\u{2004}' | '\u{2005}'
            | '\u{2006}' | '\u{2007}' | '\u{2008}' | '\u{2009}' | '\u{200a}' | '\u{2028}'
            | '\u{2029}' | '\u{202f}' | '\u{205f}' | '\u{3000}' => true,
        _ => false,
    }
}

/// The number of characters of `s` that remain once trailing whitespace
/// is removed.
pub(crate) fn trimmed_len(s: &str) -> (r: usize)
    ensures
        trim_end_ws(s@) == s@.take(r as int),
        r <= s@.len(),
{
    let mut k = s.unicode_len();
    proof {
        assert(s@.take(k as int) =~= s@);
    }
    while k > 0 && is_ws(s.get_char(k - 1))
        invariant
            k <= s@.len(),
            trim_end_ws(s@) == trim_end_ws(s@.take(k as int)),
        decreases k,
    {
        proof {
            assert(s@.take(k as int).drop_last() =~= s@.take(k as int - 1));
        }
        k = k - 1;
    }
    proof {
        if k == 0 {
            assert(s@.take(0) =~= Seq::<char>::empty());
        }
    }
    k
}

/// Exact character-for-character string equality.
pub(crate) fn str_eq(a: &str, b: &str) -> (r: bool)
    ensures
        r == (a@ == b@),
{
    let la = a.unicode_len();
    let lb = b.unicode_len();
    if la != lb {
        return false;
    }
    let mut i: usize = 0;
    while i < la
        invariant
            i <= la,
            la == a@.len(),
            la == b@.len(),
            forall|j: int| 0 <= j < i ==> a@[j] == b@[j],
        decreases la - i,
    {
        if a.get_char(i) != b.get_char(i) {
            return false;
        }
        i = i + 1;
    }
    proof {
        assert(a@ =~= b@);
    }
    true
}

/// Whether two strings are equal once each is trimmed of trailing
/// whitespace.
pub fn trimmed_eq(a: &str, b: &str) -> (r: bool)
    ensures
        r == (trim_end_ws(a@) == trim_end_ws(b@)),
{
    let ka = trimmed_len(a);
    let kb = trimmed_len(b);
    let ta = a.substring_char(0, ka);
    let tb = b.substring_char(0, kb);
    proof {
        assert(a@.subrange(0, ka as int) =~= a@.take(ka as int));
        assert(b@.subrange(0, kb as int) =~= b@.take(kb as int));
    }
    str_eq(ta, tb)
}

/// The index of the first `:` of `s`, or the length of `s` when it has
/// none.
pub open spec fn first_colon(s: Seq<char>) -> int
    decreases s.len(),
{
    if s.len() == 0 {
        0
    } else if s[0] == ':' {
        0
    } else {
        1 + first_colon(s.drop_first())
    }
}

proof fn lemma_first_colon_at(s: Seq<char>, i: int)
    requires
        0 <= i <= s.len(),
        forall|j: int| 0 <= j < i ==> s[j] != ':',
        i == s.len() || s[i] == ':',
    ensures
        first_colon(s) == i,
    decreases i,
{
    if i > 0 {
        lemma_first_colon_at(s.drop_first(), i - 1);
    }
}

/// The characters of `s` before its first `:` (all of `s` when it has
/// none).
pub(crate) fn first_path_segment(s: &str) -> (r: String)
    ensures
        r@ == s@.take(first_colon(s@)),
{
    let n = s.unicode_len();
    let mut i: usize = 0;
    while i < n && s.get_char(i) != ':'
        invariant
            i <= n,
            n == s@.len(),
            forall|j: int| 0 <= j < i ==> s@[j] != ':',
        decreases n - i,
    {
        i = i + 1;
    }
    proof {
        lemma_first_colon_at(s@, i as int);
    }
    let seg = s.substring_char(0, i);
    proof {
        assert(s@.subrange(0, i as int) =~= s@.take(i as int));
    }
    seg.to_owned()
}

} // verus!
