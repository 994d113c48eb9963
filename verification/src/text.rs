//! Character-level text utilities: whitespace trimming, character search,
//! and substring containment, each specified over `Seq<char>` views.

use vstd::prelude::*;

verus! {

/// The characters with Unicode's White_Space property: exactly the set that
/// `str::trim` removes at either end of a string.
pub open spec fn is_space_char(c: char) -> bool {
    let u = c as u32;
    (0x09 <= u && u <= 0x0D) || u == 0x20 || u == 0x85 || u == 0xA0 || u == 0x1680 || (0x2000
        <= u && u <= 0x200A) || u == 0x2028 || u == 0x2029 || u == 0x202F || u == 0x205F || u
        == 0x3000
}

/// Runtime test for `is_space_char`.
pub fn is_space(c: char) -> (b: bool)
    ensures
        b == is_space_char(c),
{
    let u = c as u32;
    (0x09 <= u && u <= 0x0D) || u == 0x20 || u == 0x85 || u == 0xA0 || u == 0x1680 || (0x2000
        <= u && u <= 0x200A) || u == 0x2028 || u == 0x2029 || u == 0x202F || u == 0x205F || u
        == 0x3000
}

/// The index of the first occurrence of `c` in `s` at or after `from`, or
/// `s.len()` if there is none.
pub open spec fn find_from(s: Seq<char>, c: char, from: int) -> int
    decreases s.len() - from,
{
    if from < 0 || from >= s.len() {
        s.len() as int
    } else if s[from] == c {
        from
    } else {
        find_from(s, c, from + 1)
    }
}

/// `find_from` returns an in-range index, points at `c` when it is below
/// `s.len()`, and nothing before it is `c`.
pub proof fn lemma_find_from(s: Seq<char>, c: char, from: int)
    requires
        0 <= from <= s.len(),
    ensures
        from <= find_from(s, c, from) <= s.len(),
        find_from(s, c, from) < s.len() ==> s[find_from(s, c, from)] == c,
        forall|j: int| from <= j < find_from(s, c, from) ==> s[j] != c,
    decreases s.len() - from,
{
    if from < s.len() && s[from] != c {
        lemma_find_from(s, c, from + 1);
    }
}

/// Finds the first occurrence of `c` in `s` at or after `from`.
pub fn find_char(s: &str, from: usize, c: char) -> (r: usize)
    requires
        from <= s@.len(),
    ensures
        r == find_from(s@, c, from as int),
        from <= r <= s@.len(),
        r < s@.len() ==> s@[r as int] == c,
{
    let n = s.unicode_len();
    let mut i = from;
    while i < n
        invariant
            from <= i <= n,
            n == s@.len(),
            find_from(s@, c, from as int) == find_from(s@, c, i as int),
        decreases n - i,
    {
        if s.get_char(i) == c {
            assert(find_from(s@, c, i as int) == i);
            return i;
        }
        assert(find_from(s@, c, i as int) == find_from(s@, c, i + 1));
        i = i + 1;
    }
    assert(find_from(s@, c, i as int) == i);
    i
}

/// The index of the first character at or after `from` that is not
/// whitespace, or `s.len()` if all of them are.
pub open spec fn skip_spaces(s: Seq<char>, from: int) -> int
    decreases s.len() - from,
{
    if from < 0 || from >= s.len() {
        s.len() as int
    } else if is_space_char(s[from]) {
        skip_spaces(s, from + 1)
    } else {
        from
    }
}

/// One past the index of the last character below `upto` that is not
/// whitespace, or `0` if all of them are.
pub open spec fn rskip_spaces(s: Seq<char>, upto: int) -> int
    decreases upto,
{
    if upto <= 0 {
        0
    } else if is_space_char(s[upto - 1]) {
        rskip_spaces(s, upto - 1)
    } else {
        upto
    }
}

/// `s` with leading and trailing whitespace removed, as `str::trim` leaves
/// it.
pub open spec fn trim_spec(s: Seq<char>) -> Seq<char> {
    let a = skip_spaces(s, 0);
    let b = rskip_spaces(s, s.len() as int);
    if a < b {
        s.subrange(a, b)
    } else {
        Seq::empty()
    }
}

/// Trims whitespace from both ends of `s`.
pub fn trim_str<'a>(s: &'a str) -> (r: &'a str)
    ensures
        r@ == trim_spec(s@),
{
    let n = s.unicode_len();
    let mut a: usize = 0;
    while a < n && is_space(s.get_char(a))
        invariant
            0 <= a <= n,
            n == s@.len(),
            skip_spaces(s@, 0) == skip_spaces(s@, a as int),
        decreases n - a,
    {
        assert(skip_spaces(s@, a as int) == skip_spaces(s@, a + 1));
        a = a + 1;
    }
    assert(skip_spaces(s@, a as int) == a);
    let mut b: usize = n;
    while b > 0 && is_space(s.get_char(b - 1))
        invariant
            0 <= b <= n,
            n == s@.len(),
            rskip_spaces(s@, n as int) == rskip_spaces(s@, b as int),
        decreases b,
    {
        assert(rskip_spaces(s@, b as int) == rskip_spaces(s@, b - 1));
        b = b - 1;
    }
    assert(rskip_spaces(s@, b as int) == b);
    if a < b {
        s.substring_char(a, b)
    } else {
        let r = s.substring_char(0, 0);
        assert(r@ =~= trim_spec(s@));
        r
    }
}

/// `needle` occurs contiguously somewhere in `hay`.
pub open spec fn contains_seq(hay: Seq<char>, needle: Seq<char>) -> bool {
    exists|i: int|
        0 <= i <= hay.len() - needle.len() && #[trigger] hay.subrange(i, i + needle.len() as int)
            == needle
}

/// Compares `needle` against the characters of `hay` starting at `at`.
fn matches_at(hay: &str, needle: &str, at: usize) -> (b: bool)
    requires
        at + needle@.len() <= hay@.len(),
        hay@.len() <= usize::MAX,
    ensures
        b == (hay@.subrange(at as int, at + needle@.len() as int) == needle@),
{
    let n = needle.unicode_len();
    let ghost sub = hay@.subrange(at as int, at + needle@.len() as int);
    let mut j: usize = 0;
    while j < n
        invariant
            0 <= j <= n,
            n == needle@.len(),
            at + n <= hay@.len() <= usize::MAX,
            sub == hay@.subrange(at as int, at + needle@.len() as int),
            forall|t: int| 0 <= t < j ==> hay@[at + t] == needle@[t],
        decreases n - j,
    {
        if hay.get_char(at + j) != needle.get_char(j) {
            assert(sub[j as int] != needle@[j as int]);
            return false;
        }
        j = j + 1;
    }
    assert(sub =~= needle@);
    true
}

/// Substring search: decides `contains_seq(hay@, needle@)`, the relation
/// behind `str::contains`.
pub fn contains_substring(hay: &str, needle: &str) -> (r: bool)
    ensures
        r == contains_seq(hay@, needle@),
{
    let hn = hay.unicode_len();
    let nn = needle.unicode_len();
    if nn > hn {
        assert(!contains_seq(hay@, needle@));
        return false;
    }
    if nn == 0 {
        assert(hay@.subrange(0, 0 + needle@.len() as int) =~= needle@);
        assert(contains_seq(hay@, needle@));
        return true;
    }
    let mut i: usize = 0;
    while i <= hn - nn
        invariant
            0 < nn <= hn,
            hn == hay@.len(),
            nn == needle@.len(),
            0 <= i <= hn - nn + 1,
            forall|k: int|
                0 <= k < i ==> #[trigger] hay@.subrange(k, k + needle@.len() as int) != needle@,
        decreases hn - i,
    {
        if matches_at(hay, needle, i) {
            assert(contains_seq(hay@, needle@));
            return true;
        }
        i = i + 1;
    }
    assert(!contains_seq(hay@, needle@));
    false
}

/// Every message in `msgs` occurs somewhere in `hay`.
pub open spec fn all_contained(hay: Seq<char>, msgs: Seq<Seq<char>>) -> bool {
    forall|i: int| 0 <= i < msgs.len() ==> contains_seq(hay, #[trigger] msgs[i])
}

} // verus!
