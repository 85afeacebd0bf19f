use vstd::prelude::*;

verus! {

/// The characters with the Unicode `White_Space` property.
pub open spec fn is_white_space(c: char) -> bool {
    let u = c as u32;
    (0x9 <= u && u <= 0xd) || u == 0x20 || u == 0x85 || u == 0xa0 || u == 0x1680
        || (0x2000 <= u && u <= 0x200a) || u == 0x2028 || u == 0x2029 || u == 0x202f
        || u == 0x205f || u == 0x3000
}

/// `s` without its leading white space.
pub open spec fn trim_start(s: Seq<char>) -> Seq<char>
    decreases s.len(),
{
    if s.len() > 0 && is_white_space(s[0]) {
        trim_start(s.drop_first())
    } else {
        s
    }
}

/// `s` without its trailing white space.
pub open spec fn trim_end(s: Seq<char>) -> Seq<char>
    decreases s.len(),
{
    if s.len() > 0 && is_white_space(s.last()) {
        trim_end(s.drop_last())
    } else {
        s
    }
}

/// `s` without white space at either end.
pub open spec fn trim(s: Seq<char>) -> Seq<char> {
    trim_end(trim_start(s))
}

/// Whether `c` is white space in the Unicode sense.
pub fn white_space(c: char) -> (r: bool)
    ensures
        r == is_white_space(c),
{
    let u = c as u32;
    (0x9 <= u && u <= 0xd) || u == 0x20 || u == 0x85 || u == 0xa0 || u == 0x1680
        || (0x2000 <= u && u <= 0x200a) || u == 0x2028 || u == 0x2029 || u == 0x202f
        || u == 0x205f || u == 0x3000
}

/// The bounds of `chars[lo..hi]` once white space is taken off both ends.
pub fn trimmed_bounds(chars: &Vec<char>, lo: usize, hi: usize) -> (r: (usize, usize))
    requires
        lo <= hi <= chars@.len(),
    ensures
        lo <= r.0 <= r.1 <= hi,
        chars@.subrange(r.0 as int, r.1 as int) == trim(chars@.subrange(lo as int, hi as int)),
{
    let ghost s = chars@.subrange(lo as int, hi as int);
    let mut a: usize = lo;
    while a < hi && white_space(chars[a])
        invariant
            lo <= a <= hi <= chars@.len(),
            s == chars@.subrange(lo as int, hi as int),
            trim_start(s) == trim_start(chars@.subrange(a as int, hi as int)),
        decreases hi - a,
    {
        assert(chars@.subrange(a as int, hi as int).drop_first() =~= chars@.subrange(
            a + 1,
            hi as int,
        ));
        a = a + 1;
    }
    assert(trim_start(s) == chars@.subrange(a as int, hi as int));
    let mut b: usize = hi;
    while b > a && white_space(chars[b - 1])
        invariant
            lo <= a <= b <= hi <= chars@.len(),
            trim(s) == trim_end(chars@.subrange(a as int, b as int)),
        decreases b - a,
    {
        assert(chars@.subrange(a as int, b as int).drop_last() =~= chars@.subrange(
            a as int,
            b - 1,
        ));
        b = b - 1;
    }
    (a, b)
}

} // verus!
