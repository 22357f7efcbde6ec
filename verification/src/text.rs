//! Character-level helpers on strings: whitespace trimming, ASCII case
//! folding and substring search, each with a mathematical model over
//! `Seq<char>`.

use vstd::prelude::*;
use vstd::string::*;

verus! {

/// The view of an optional text.
pub open spec fn optional_text(s: Option<String>) -> Option<Seq<char>> {
    match s {
        Some(t) => Some(t@),
        None => None,
    }
}

/// The view of a result that carries text either way.
pub open spec fn text_result(r: Result<String, String>) -> Result<Seq<char>, Seq<char>> {
    match r {
        Ok(t) => Ok(t@),
        Err(e) => Err(e@),
    }
}

/// Whether `c` has the Unicode property `White_Space`.
pub open spec fn is_space(c: char) -> bool {
    let n = c as u32;
    (0x09 <= n && n <= 0x0d) || n == 0x20 || n == 0x85 || n == 0xa0 || n == 0x1680 || (0x2000 <= n
        && n <= 0x200a) || n == 0x2028 || n == 0x2029 || n == 0x202f || n == 0x205f || n == 0x3000
}

/// `s` without its leading whitespace.
pub open spec fn trim_front(s: Seq<char>) -> Seq<char>
    decreases s.len(),
{
    if s.len() > 0 && is_space(s[0]) {
        trim_front(s.subrange(1, s.len() as int))
    } else {
        s
    }
}

/// `s` without its trailing whitespace.
pub open spec fn trim_back(s: Seq<char>) -> Seq<char>
    decreases s.len(),
{
    if s.len() > 0 && is_space(s[s.len() - 1]) {
        trim_back(s.subrange(0, s.len() - 1))
    } else {
        s
    }
}

/// `s` without leading and trailing whitespace.
pub open spec fn trimmed(s: Seq<char>) -> Seq<char> {
    trim_back(trim_front(s))
}

/// The ASCII lower-case form of `c`; characters outside `A..=Z` are kept.
pub open spec fn lower(c: char) -> char {
    if 'A' <= c && c <= 'Z' {
        ((c as u8) + 32) as char
    } else {
        c
    }
}

/// `s` with every character folded by [`lower`].
pub open spec fn lowered(s: Seq<char>) -> Seq<char> {
    Seq::new(s.len(), |i: int| lower(s[i]))
}

/// Whether `pat` stands in `s` at index `i`.
pub open spec fn occurs_at(s: Seq<char>, pat: Seq<char>, i: int) -> bool {
    0 <= i && i + pat.len() <= s.len() && s.subrange(i, i + pat.len()) == pat
}

/// The first index at or after `i` where `pat` stands in `s`.
pub open spec fn find_from(s: Seq<char>, pat: Seq<char>, i: int) -> Option<int>
    decreases s.len() + 1 - i,
{
    if i < 0 || i + pat.len() > s.len() {
        None
    } else if occurs_at(s, pat, i) {
        Some(i)
    } else {
        find_from(s, pat, i + 1)
    }
}

/// The first index where `pat` stands in `s`.
pub open spec fn find(s: Seq<char>, pat: Seq<char>) -> Option<int> {
    find_from(s, pat, 0)
}

/// Whether `pat` stands somewhere in `s`.
pub open spec fn contains(s: Seq<char>, pat: Seq<char>) -> bool {
    find(s, pat) is Some
}

/// Whether `s` ends with `pat`.
pub open spec fn ends_with(s: Seq<char>, pat: Seq<char>) -> bool {
    pat.len() <= s.len() && s.subrange(s.len() - pat.len(), s.len() as int) == pat
}

/// What [`find_from`] returns is the least index at or after `i` where the
/// pattern stands, and it returns nothing only where there is none.
pub proof fn lemma_find_from_is_first(s: Seq<char>, pat: Seq<char>, i: int)
    requires
        0 <= i,
    ensures
        match find_from(s, pat, i) {
            Some(k) => i <= k && occurs_at(s, pat, k) && forall|j: int|
                i <= j < k ==> !occurs_at(s, pat, j),
            None => forall|j: int| i <= j ==> !occurs_at(s, pat, j),
        },
    decreases s.len() + 1 - i,
{
    if i + pat.len() <= s.len() && !occurs_at(s, pat, i) {
        lemma_find_from_is_first(s, pat, i + 1);
    }
}

/// Folding the case of a character does not change whether it is
/// whitespace.
pub proof fn lemma_lower_keeps_space(c: char)
    ensures
        is_space(lower(c)) == is_space(c),
{
}

/// Trimming the front and folding the case can be done in either order.
pub proof fn lemma_trim_front_lowered(s: Seq<char>)
    ensures
        lowered(trim_front(s)) == trim_front(lowered(s)),
    decreases s.len(),
{
    if s.len() > 0 {
        lemma_lower_keeps_space(s[0]);
        if is_space(s[0]) {
            let rest = s.subrange(1, s.len() as int);
            lemma_trim_front_lowered(rest);
            assert(lowered(s).subrange(1, s.len() as int) =~= lowered(rest));
        }
    }
}

/// Trimming the back and folding the case can be done in either order.
pub proof fn lemma_trim_back_lowered(s: Seq<char>)
    ensures
        lowered(trim_back(s)) == trim_back(lowered(s)),
    decreases s.len(),
{
    if s.len() > 0 {
        lemma_lower_keeps_space(s[s.len() - 1]);
        if is_space(s[s.len() - 1]) {
            let rest = s.subrange(0, s.len() - 1);
            lemma_trim_back_lowered(rest);
            assert(lowered(s).subrange(0, s.len() - 1) =~= lowered(rest));
        }
    }
}

/// Trimming and folding the case can be done in either order.
pub proof fn lemma_trimmed_lowered(s: Seq<char>)
    ensures
        lowered(trimmed(s)) == trimmed(lowered(s)),
{
    lemma_trim_front_lowered(s);
    lemma_trim_back_lowered(trim_front(s));
}

pub fn is_space_char(c: char) -> (r: bool)
    ensures
        r == is_space(c),
{
    let n: u32 = c as u32;
    (0x09 <= n && n <= 0x0d) || n == 0x20 || n == 0x85 || n == 0xa0 || n == 0x1680 || (0x2000 <= n
        && n <= 0x200a) || n == 0x2028 || n == 0x2029 || n == 0x202f || n == 0x205f || n == 0x3000
}

pub fn lower_char(c: char) -> (r: char)
    ensures
        r == lower(c),
{
    if 'A' <= c && c <= 'Z' {
        let b: u8 = c as u8;
        (b + 32u8) as char
    } else {
        c
    }
}

/// The characters of `s`, one by one.
pub fn chars_of(s: &str) -> (v: Vec<char>)
    ensures
        v@ == s@,
{
    let n: usize = s.unicode_len();
    let mut v: Vec<char> = Vec::new();
    let mut i: usize = 0;
    while i < n
        invariant
            i <= n,
            n == s@.len(),
            v@ == s@.subrange(0, i as int),
        decreases n - i,
    {
        v.push(s.get_char(i));
        i += 1;
        proof {
            assert(v@ =~= s@.subrange(0, i as int));
        }
    }
    proof {
        assert(s@.subrange(0, n as int) =~= s@);
    }
    v
}

/// The bounds of `v[lo..hi]` without its leading and trailing whitespace.
pub fn trim_bounds(v: &Vec<char>, lo: usize, hi: usize) -> (r: (usize, usize))
    requires
        lo <= hi <= v@.len(),
    ensures
        lo <= r.0 <= r.1 <= hi,
        v@.subrange(r.0 as int, r.1 as int) == trimmed(v@.subrange(lo as int, hi as int)),
{
    let mut a: usize = lo;
    while a < hi && is_space_char(v[a])
        invariant
            lo <= a <= hi <= v@.len(),
            trim_front(v@.subrange(lo as int, hi as int)) == trim_front(
                v@.subrange(a as int, hi as int),
            ),
        decreases hi - a,
    {
        proof {
            let cur = v@.subrange(a as int, hi as int);
            assert(cur.subrange(1, cur.len() as int) =~= v@.subrange(a + 1, hi as int));
        }
        a += 1;
    }
    let mut b: usize = hi;
    while a < b && is_space_char(v[b - 1])
        invariant
            a <= b <= hi <= v@.len(),
            trim_back(v@.subrange(a as int, hi as int)) == trim_back(
                v@.subrange(a as int, b as int),
            ),
        decreases b - a,
    {
        proof {
            let cur = v@.subrange(a as int, b as int);
            assert(cur.subrange(0, cur.len() - 1) =~= v@.subrange(a as int, b - 1));
        }
        b -= 1;
    }
    (a, b)
}

/// Whether `pat` stands in `v` at index `pos`.
pub fn matches_at(v: &Vec<char>, pos: usize, pat: &Vec<char>) -> (r: bool)
    requires
        pos + pat@.len() <= v@.len(),
    ensures
        r == occurs_at(v@, pat@, pos as int),
{
    let m: usize = pat.len();
    let n: usize = v.len();
    let mut k: usize = 0;
    while k < m
        invariant
            k <= m,
            m == pat@.len(),
            n == v@.len(),
            pos + m <= n,
            forall|j: int| 0 <= j < k ==> v@[pos + j] == pat@[j],
        decreases m - k,
    {
        if v[pos + k] != pat[k] {
            proof {
                assert(v@.subrange(pos as int, pos + m)[k as int] == v@[pos + k]);
            }
            return false;
        }
        k += 1;
    }
    proof {
        assert(v@.subrange(pos as int, pos + m) =~= pat@);
    }
    true
}

/// The first index where `pat` stands in `v[lo..hi]`, counted from `lo`.
pub fn find_in(v: &Vec<char>, lo: usize, hi: usize, pat: &Vec<char>) -> (r: Option<usize>)
    requires
        lo <= hi <= v@.len(),
    ensures
        match r {
            Some(k) => find(v@.subrange(lo as int, hi as int), pat@) == Some(k as int),
            None => find(v@.subrange(lo as int, hi as int), pat@) is None,
        },
{
    let m: usize = pat.len();
    let ghost s = v@.subrange(lo as int, hi as int);
    if hi - lo < m {
        return None;
    }
    let span: usize = hi - lo;
    let mut i: usize = 0;
    while m <= span - i
        invariant
            lo <= hi <= v@.len(),
            m == pat@.len(),
            span == hi - lo,
            i <= span,
            s == v@.subrange(lo as int, hi as int),
            find(s, pat@) == find_from(s, pat@, i as int),
        decreases span - i,
    {
        proof {
            assert(s.subrange(i as int, i + m) =~= v@.subrange(lo + i, lo + i + m));
            if m == 0 {
                assert(v@.subrange(lo + i, lo + i + m) =~= pat@);
            }
        }
        if matches_at(v, lo + i, pat) {
            return Some(i);
        }
        i += 1;
    }
    None
}

/// Whether `v` ends with `pat`.
pub fn has_suffix(v: &Vec<char>, pat: &Vec<char>) -> (r: bool)
    ensures
        r == ends_with(v@, pat@),
{
    if v.len() < pat.len() {
        return false;
    }
    matches_at(v, v.len() - pat.len(), pat)
}

/// Whether `v[lo..hi]`, folded to lower case, spells `key`.
pub fn spells(v: &Vec<char>, lo: usize, hi: usize, key: &str) -> (r: bool)
    requires
        lo <= hi <= v@.len(),
    ensures
        r == (lowered(v@.subrange(lo as int, hi as int)) == key@),
{
    let k = chars_of(key);
    let ghost s = v@.subrange(lo as int, hi as int);
    if k.len() != hi - lo {
        return false;
    }
    let n: usize = k.len();
    let mut i: usize = 0;
    while i < n
        invariant
            i <= n,
            n == k@.len(),
            n == hi - lo,
            lo <= hi <= v@.len(),
            k@ == key@,
            s == v@.subrange(lo as int, hi as int),
            forall|j: int| 0 <= j < i ==> lower(s[j]) == k@[j],
        decreases n - i,
    {
        if lower_char(v[lo + i]) != k[i] {
            proof {
                assert(lowered(s)[i as int] == lower(s[i as int]));
            }
            return false;
        }
        i += 1;
    }
    proof {
        assert(lowered(s) =~= k@);
    }
    true
}

} // verus!
