//! Character-level helpers over the text of a string.
use vstd::prelude::*;
use vstd::string::*;

verus! {

/// `s` begins with `p`.
pub open spec fn has_prefix(s: Seq<char>, p: Seq<char>) -> bool {
    p.len() <= s.len() && s.take(p.len() as int) == p
}

/// The characters of `s`, one by one.
pub fn chars_of(s: &str) -> (r: Vec<char>)
    ensures
        r@ == s@,
{
    let n = s.unicode_len();
    let mut r: Vec<char> = Vec::new();
    let mut i: usize = 0;
    while i < n
        invariant
            n == s@.len(),
            0 <= i <= n,
            r@ == s@.take(i as int),
        decreases n - i,
    {
        r.push(s.get_char(i));
        i = i + 1;
        assert(r@ =~= s@.take(i as int));
    }
    assert(s@.take(n as int) =~= s@);
    r
}

/// Whether `s` begins with the characters of `tag`.
pub fn starts_with_chars(s: &Vec<char>, tag: &str) -> (r: bool)
    ensures
        r == has_prefix(s@, tag@),
{
    let n = tag.unicode_len();
    if n > s.len() {
        return false;
    }
    let mut i: usize = 0;
    while i < n
        invariant
            n == tag@.len(),
            n <= s@.len(),
            0 <= i <= n,
            s@.take(i as int) == tag@.take(i as int),
        decreases n - i,
    {
        if s[i] != tag.get_char(i) {
            assert(s@.take(n as int)[i as int] != tag@[i as int]);
            return false;
        }
        i = i + 1;
        assert(s@.take(i as int) =~= tag@.take(i as int));
    }
    assert(tag@.take(n as int) =~= tag@);
    true
}

/// Whether the characters of `s` from `a` to `b` begin with those of `p`.
pub fn range_has_prefix(s: &Vec<char>, a: usize, b: usize, p: &Vec<char>) -> (r: bool)
    requires
        a <= b <= s@.len(),
    ensures
        r == has_prefix(s@.subrange(a as int, b as int), p@),
{
    let ghost t = s@.subrange(a as int, b as int);
    let n = p.len();
    if n > b - a {
        return false;
    }
    let mut i: usize = 0;
    while i < n
        invariant
            t == s@.subrange(a as int, b as int),
            n == p@.len(),
            a <= b <= s@.len(),
            n <= b - a,
            0 <= i <= n,
            t.take(i as int) == p@.take(i as int),
        decreases n - i,
    {
        if s[a + i] != p[i] {
            assert(t.take(n as int)[i as int] != p@[i as int]);
            return false;
        }
        i = i + 1;
        assert(t.take(i as int) =~= p@.take(i as int));
    }
    assert(p@.take(n as int) =~= p@);
    true
}

} // verus!
