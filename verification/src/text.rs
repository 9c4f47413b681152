//! Text helpers over the character view of strings.

use vstd::prelude::*;
use vstd::string::*;

verus! {

/// The characters of a string, in order.
pub fn chars_of(s: &str) -> (chars: Vec<char>)
    ensures
        chars@ == s@,
{
    let mut chars: Vec<char> = Vec::new();
    for c in it: s.chars()
        invariant
            chars@ == it.seq().take(it.index() as int),
            it.seq() == s@,
    {
        chars.push(c);
    }
    chars
}

/// Whether two strings hold the same characters.
pub fn str_equal(a: &str, b: &str) -> (same: bool)
    ensures
        same == (a@ == b@),
{
    let x = chars_of(a);
    let y = chars_of(b);
    if x.len() != y.len() {
        return false;
    }
    let mut i: usize = 0;
    while i < x.len()
        invariant
            x@ == a@,
            y@ == b@,
            x@.len() == y@.len(),
            i <= x@.len(),
            forall|k: int| 0 <= k < i ==> x@[k] == y@[k],
        decreases x@.len() - i,
    {
        if x[i] != y[i] {
            return false;
        }
        i += 1;
    }
    assert(x@ =~= y@);
    true
}

/// White space as `str::trim` understands it: the Unicode `White_Space`
/// code points.
pub open spec fn is_space(c: char) -> bool {
    let u = c as u32;
    ||| 0x09 <= u <= 0x0d
    ||| u == 0x20
    ||| u == 0x85
    ||| u == 0xa0
    ||| u == 0x1680
    ||| 0x2000 <= u <= 0x200a
    ||| u == 0x2028
    ||| u == 0x2029
    ||| u == 0x202f
    ||| u == 0x205f
    ||| u == 0x3000
}

/// `s` without its leading white space.
pub open spec fn trim_start(s: Seq<char>) -> Seq<char>
    decreases s.len(),
{
    if s.len() > 0 && is_space(s[0]) {
        trim_start(s.drop_first())
    } else {
        s
    }
}

/// `s` without its trailing white space.
pub open spec fn trim_end(s: Seq<char>) -> Seq<char>
    decreases s.len(),
{
    if s.len() > 0 && is_space(s.last()) {
        trim_end(s.drop_last())
    } else {
        s
    }
}

/// `s` without leading and trailing white space.
pub open spec fn trimmed(s: Seq<char>) -> Seq<char> {
    trim_end(trim_start(s))
}

/// Index of the first `c` in `s`, or the length of `s` where there is none.
pub open spec fn position_of(s: Seq<char>, c: char) -> int
    decreases s.len(),
{
    if s.len() == 0 {
        0
    } else if s[0] == c {
        0
    } else {
        1 + position_of(s.drop_first(), c)
    }
}

/// `position_of` is the least index that holds `c`.
pub proof fn lemma_position_of(s: Seq<char>, c: char)
    ensures
        0 <= position_of(s, c) <= s.len(),
        position_of(s, c) < s.len() ==> s[position_of(s, c)] == c,
        forall|k: int| 0 <= k < position_of(s, c) ==> s[k] != c,
    decreases s.len(),
{
    if s.len() > 0 && s[0] != c {
        let t = s.drop_first();
        lemma_position_of(t, c);
        assert forall|k: int| 0 <= k < position_of(s, c) implies s[k] != c by {
            if k > 0 {
                assert(t[k - 1] == s[k]);
            }
        }
    }
}

/// Tells white space from other characters.
pub fn char_is_space(c: char) -> (space: bool)
    ensures
        space == is_space(c),
{
    let u: u32 = c as u32;
    (0x09 <= u && u <= 0x0d) || u == 0x20 || u == 0x85 || u == 0xa0 || u == 0x1680 || (0x2000 <= u
        && u <= 0x200a) || u == 0x2028 || u == 0x2029 || u == 0x202f || u == 0x205f || u == 0x3000
}

/// The bounds of the trimmed part of `chars`.
pub fn trim_bounds(chars: &Vec<char>) -> (bounds: (usize, usize))
    ensures
        bounds.0 <= bounds.1 <= chars@.len(),
        chars@.subrange(bounds.0 as int, bounds.1 as int) == trimmed(chars@),
{
    let n: usize = chars.len();
    let mut start: usize = 0;
    assert(chars@.subrange(0, n as int) =~= chars@);
    while start < n && char_is_space(chars[start])
        invariant
            n == chars@.len(),
            start <= n,
            trim_start(chars@) == trim_start(chars@.subrange(start as int, n as int)),
        decreases n - start,
    {
        assert(chars@.subrange(start as int, n as int).drop_first() =~= chars@.subrange(
            start as int + 1,
            n as int,
        ));
        start += 1;
    }
    let ghost rest = chars@.subrange(start as int, n as int);
    assert(trim_start(chars@) == rest);
    let mut end: usize = n;
    while end > start && char_is_space(chars[end - 1])
        invariant
            n == chars@.len(),
            start <= end <= n,
            rest == chars@.subrange(start as int, n as int),
            trim_end(rest) == trim_end(chars@.subrange(start as int, end as int)),
        decreases end - start,
    {
        assert(chars@.subrange(start as int, end as int).drop_last() =~= chars@.subrange(
            start as int,
            end as int - 1,
        ));
        end -= 1;
    }
    (start, end)
}

/// The trimmed text as an owned string.
pub fn trim_text(s: &str) -> (out: String)
    ensures
        out@ == trimmed(s@),
{
    let chars = chars_of(s);
    let (start, end) = trim_bounds(&chars);
    s.substring_char(start, end).to_owned()
}

/// Whether `chars` begins with the characters of `prefix`.
pub fn has_prefix(chars: &Vec<char>, prefix: &str) -> (yes: bool)
    ensures
        yes == prefix@.is_prefix_of(chars@),
{
    let p = chars_of(prefix);
    if p.len() > chars.len() {
        return false;
    }
    let mut i: usize = 0;
    while i < p.len()
        invariant
            p@ == prefix@,
            p@.len() <= chars@.len(),
            i <= p@.len(),
            forall|k: int| 0 <= k < i ==> p@[k] == chars@[k],
        decreases p@.len() - i,
    {
        if p[i] != chars[i] {
            assert(chars@.subrange(0, p@.len() as int)[i as int] != p@[i as int]);
            return false;
        }
        i += 1;
    }
    assert(p@ =~= chars@.subrange(0, p@.len() as int));
    true
}

/// Whether `chars` ends with the characters of `suffix`.
pub fn has_suffix(chars: &Vec<char>, suffix: &str) -> (yes: bool)
    ensures
        yes == suffix@.is_suffix_of(chars@),
{
    let p = chars_of(suffix);
    if p.len() > chars.len() {
        return false;
    }
    let base: usize = chars.len() - p.len();
    let mut i: usize = 0;
    while i < p.len()
        invariant
            p@ == suffix@,
            p@.len() <= chars@.len(),
            base == chars@.len() - p@.len(),
            chars@.len() <= usize::MAX,
            i <= p@.len(),
            forall|k: int| 0 <= k < i ==> p@[k] == chars@[base + k],
        decreases p@.len() - i,
    {
        if p[i] != chars[base + i] {
            assert(chars@.subrange(base as int, chars@.len() as int)[i as int] != p@[i as int]);
            return false;
        }
        i += 1;
    }
    assert(p@ =~= chars@.subrange(base as int, chars@.len() as int));
    true
}

/// Index of the first `c` at or after `from`, or the length where there is
/// none.
pub fn find_from(chars: &Vec<char>, from: usize, c: char) -> (at: usize)
    requires
        from <= chars@.len(),
    ensures
        at == from + position_of(chars@.subrange(from as int, chars@.len() as int), c),
        from <= at <= chars@.len(),
{
    let n: usize = chars.len();
    let mut at: usize = from;
    while at < n && chars[at] != c
        invariant
            n == chars@.len(),
            from <= at <= n,
            from + position_of(chars@.subrange(from as int, n as int), c) == at + position_of(
                chars@.subrange(at as int, n as int),
                c,
            ),
        decreases n - at,
    {
        assert(chars@.subrange(at as int, n as int).drop_first() =~= chars@.subrange(
            at as int + 1,
            n as int,
        ));
        at += 1;
    }
    at
}

} // verus!
