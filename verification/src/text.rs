//! Character-level comparisons the catalog relies on: the ASCII case
//! folding that the store uses for duplicate and deletion matching, and
//! the case-sensitive prefix match that drives album-name suggestions.

use vstd::prelude::*;
use vstd::string::StrSliceExecFns;

verus! {

/// The code point a character counts as when titles and names are
/// compared case-insensitively: ASCII lower-case letters fold to their
/// upper-case form, every other character stands for itself.
pub open spec fn fold_char(c: char) -> int {
    if 97 <= c as u32 && c as u32 <= 122 {
        c as u32 - 32
    } else {
        c as u32 as int
    }
}

/// Case-insensitive equality of two character sequences under ASCII
/// folding, as the store's duplicate check and album deletion match.
pub open spec fn eq_ci(a: Seq<char>, b: Seq<char>) -> bool {
    a.len() == b.len() && (forall|i: int| 0 <= i < a.len() ==> fold_char(a[i]) == fold_char(b[i]))
}

/// `p` is a (case-sensitive) prefix of `s`.
pub open spec fn is_prefix(p: Seq<char>, s: Seq<char>) -> bool {
    p.len() <= s.len() && (forall|i: int| 0 <= i < p.len() ==> s[i] == p[i])
}

/// ASCII case folding of one character.
pub fn fold_char_exec(c: char) -> (r: u32)
    ensures
        r as int == fold_char(c),
{
    let u = c as u32;
    if u >= 97 && u <= 122 {
        u - 32
    } else {
        u
    }
}

/// Case-insensitive string equality under ASCII folding.
pub fn str_eq_ci(a: &str, b: &str) -> (r: bool)
    ensures
        r == eq_ci(a@, b@),
{
    let alen = a.unicode_len();
    let blen = b.unicode_len();
    if alen != blen {
        return false;
    }
    let mut i: usize = 0;
    while i < alen
        invariant
            0 <= i <= alen,
            alen == a@.len(),
            alen == b@.len(),
            forall|j: int| 0 <= j < i ==> fold_char(a@[j]) == fold_char(b@[j]),
        decreases alen - i,
    {
        let ca = a.get_char(i);
        let cb = b.get_char(i);
        if fold_char_exec(ca) != fold_char_exec(cb) {
            return false;
        }
        i += 1;
    }
    true
}

/// Case-sensitive prefix test.
pub fn str_has_prefix(p: &str, s: &str) -> (r: bool)
    ensures
        r == is_prefix(p@, s@),
{
    let plen = p.unicode_len();
    let slen = s.unicode_len();
    if plen > slen {
        return false;
    }
    let mut i: usize = 0;
    while i < plen
        invariant
            0 <= i <= plen,
            plen == p@.len(),
            slen == s@.len(),
            plen <= slen,
            forall|j: int| 0 <= j < i ==> s@[j] == p@[j],
        decreases plen - i,
    {
        let cp = p.get_char(i);
        let cs = s.get_char(i);
        if cp != cs {
            return false;
        }
        i += 1;
    }
    true
}

} // verus!
