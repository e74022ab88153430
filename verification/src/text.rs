//! Character sequences: what white space is, trimming and stripping.

use vstd::prelude::*;

verus! {

/// The texts of a list of string slices.
pub open spec fn texts(slices: Seq<&str>) -> Seq<Seq<char>> {
    Seq::new(slices.len(), |i: int| slices[i]@)
}

/// The characters that count as white space: those that Unicode classes as
/// `White_Space`.
pub open spec fn is_white_space(c: char) -> bool {
    let n = c as u32;
    ||| 0x09 <= n <= 0x0D
    ||| n == 0x20
    ||| n == 0x85
    ||| n == 0xA0
    ||| n == 0x1680
    ||| 0x2000 <= n <= 0x200A
    ||| n == 0x2028
    ||| n == 0x2029
    ||| n == 0x202F
    ||| n == 0x205F
    ||| n == 0x3000
}

/// `s` without the white space it begins with.
pub open spec fn trimmed_start(s: Seq<char>) -> Seq<char>
    decreases s.len(),
{
    if s.len() > 0 && is_white_space(s.first()) {
        trimmed_start(s.drop_first())
    } else {
        s
    }
}

/// `s` without the white space it ends with.
pub open spec fn trimmed_end(s: Seq<char>) -> Seq<char>
    decreases s.len(),
{
    if s.len() > 0 && is_white_space(s.last()) {
        trimmed_end(s.drop_last())
    } else {
        s
    }
}

/// `s` without the white space around it.
pub open spec fn trimmed(s: Seq<char>) -> Seq<char> {
    trimmed_end(trimmed_start(s))
}

/// Tells whether `c` is white space.
pub fn white_space(c: char) -> (yes: bool)
    ensures
        yes == is_white_space(c),
{
    let n: u32 = c as u32;
    (0x09 <= n && n <= 0x0D) || n == 0x20 || n == 0x85 || n == 0xA0 || n == 0x1680 || (0x2000 <= n
        && n <= 0x200A) || n == 0x2028 || n == 0x2029 || n == 0x202F || n == 0x205F || n == 0x3000
}

/// `s` without its first character if that is `c`, else `s`.
pub open spec fn without_leading(s: Seq<char>, c: char) -> Seq<char> {
    if s.len() > 0 && s.first() == c {
        s.drop_first()
    } else {
        s
    }
}

/// `s` without its last character if that is `c`, else `s`.
pub open spec fn without_trailing(s: Seq<char>, c: char) -> Seq<char> {
    if s.len() > 0 && s.last() == c {
        s.drop_last()
    } else {
        s
    }
}

/// Every character of `s` is white space.
pub open spec fn all_white_space(s: Seq<char>) -> bool {
    forall|i: int| 0 <= i < s.len() ==> is_white_space(#[trigger] s[i])
}

/// Where white space ends at the front of `s`, trimming the start skips to.
pub proof fn trimmed_start_skips(s: Seq<char>, lo: int)
    requires
        0 <= lo <= s.len(),
        all_white_space(s.take(lo)),
        lo < s.len() ==> !is_white_space(s[lo]),
    ensures
        trimmed_start(s) == s.skip(lo),
    decreases lo,
{
    if lo == 0 {
        assert(s.skip(0) =~= s);
    } else {
        assert(s.take(lo)[0] == s[0]);
        let rest = s.drop_first();
        assert forall|i: int| 0 <= i < lo - 1 implies is_white_space(
            #[trigger] rest.take(lo - 1)[i],
        ) by {
            assert(s.take(lo)[i + 1] == rest.take(lo - 1)[i]);
        }
        trimmed_start_skips(rest, lo - 1);
        assert(rest.skip(lo - 1) =~= s.skip(lo));
    }
}

/// Where white space begins at the back of `s`, trimming the end cuts.
pub proof fn trimmed_end_takes(s: Seq<char>, hi: int)
    requires
        0 <= hi <= s.len(),
        all_white_space(s.skip(hi)),
        hi > 0 ==> !is_white_space(s[hi - 1]),
    ensures
        trimmed_end(s) == s.take(hi),
    decreases s.len() - hi,
{
    if hi == s.len() {
        assert(s.take(hi) =~= s);
    } else {
        assert(s.skip(hi)[s.len() - hi - 1] == s.last());
        let rest = s.drop_last();
        assert forall|i: int| 0 <= i < rest.len() - hi implies is_white_space(
            #[trigger] rest.skip(hi)[i],
        ) by {
            assert(s.skip(hi)[i] == rest.skip(hi)[i]);
        }
        trimmed_end_takes(rest, hi);
        assert(rest.take(hi) =~= s.take(hi));
    }
}

/// Trimming keeps what lies between the first and the last character that is
/// not white space.
pub proof fn trimmed_is_subrange(s: Seq<char>, lo: int, hi: int)
    requires
        0 <= lo <= hi <= s.len(),
        all_white_space(s.take(lo)),
        all_white_space(s.skip(hi)),
        lo < s.len() ==> !is_white_space(s[lo]),
        lo < hi ==> !is_white_space(s[hi - 1]),
    ensures
        trimmed(s) == s.subrange(lo, hi),
{
    trimmed_start_skips(s, lo);
    let rest = s.skip(lo);
    assert(rest.skip(hi - lo) =~= s.skip(hi));
    if lo == hi && lo < s.len() {
        // rest begins with a character that is not white space
        // while everything from `hi == lo` on is white space
        assert(s.skip(hi)[0] == s[lo]);
    }
    trimmed_end_takes(rest, hi - lo);
    assert(rest.take(hi - lo) =~= s.subrange(lo, hi));
}

/// Trimming hands back a part of `s` as it stands: the characters from one
/// position up to another, none added and none changed.
pub proof fn trimmed_bounds(s: Seq<char>) -> (bounds: (int, int))
    ensures
        0 <= bounds.0 <= bounds.1 <= s.len(),
        trimmed(s) == s.subrange(bounds.0, bounds.1),
{
    let lo = trimmed_start_bound(s);
    let rest = s.skip(lo);
    let len = trimmed_end_bound(rest);
    assert(rest.take(len) =~= s.subrange(lo, lo + len));
    (lo, lo + len)
}

proof fn trimmed_start_bound(s: Seq<char>) -> (lo: int)
    ensures
        0 <= lo <= s.len(),
        trimmed_start(s) == s.skip(lo),
    decreases s.len(),
{
    if s.len() > 0 && is_white_space(s.first()) {
        let lo = trimmed_start_bound(s.drop_first());
        assert(s.drop_first().skip(lo) =~= s.skip(lo + 1));
        lo + 1
    } else {
        assert(s.skip(0) =~= s);
        0
    }
}

proof fn trimmed_end_bound(s: Seq<char>) -> (hi: int)
    ensures
        0 <= hi <= s.len(),
        trimmed_end(s) == s.take(hi),
    decreases s.len(),
{
    if s.len() > 0 && is_white_space(s.last()) {
        let hi = trimmed_end_bound(s.drop_last());
        assert(s.drop_last().take(hi) =~= s.take(hi));
        hi
    } else {
        assert(s.take(s.len() as int) =~= s);
        s.len() as int
    }
}

/// Returns `s` without the white space around it.
pub fn trim(s: &str) -> (out: &str)
    ensures
        out@ == trimmed(s@),
{
    let n: usize = s.unicode_len();
    let mut lo: usize = n;
    let mut hi: usize = n;
    let mut seen: bool = false;
    let mut i: usize = 0;
    for c in it: s.chars()
        invariant
            n == s@.len(),
            it.seq() == s@,
            i == it.index(),
            !seen ==> lo == n && hi == n && all_white_space(s@.take(i as int)),
            seen ==> lo < hi <= i && all_white_space(s@.take(lo as int)) && !is_white_space(
                s@[lo as int],
            ) && !is_white_space(s@[hi - 1]) && all_white_space(s@.subrange(hi as int, i as int)),
    {
        if !white_space(c) {
            if !seen {
                lo = i;
                seen = true;
            }
            hi = i + 1;
            assert(s@.subrange(hi as int, i + 1) =~= Seq::<char>::empty());
        } else {
            if seen {
                assert forall|j: int| 0 <= j < i + 1 - hi implies is_white_space(
                    #[trigger] s@.subrange(hi as int, i + 1)[j],
                ) by {
                    if j < i - hi {
                        assert(s@.subrange(hi as int, i as int)[j] == s@[hi + j]);
                    }
                }
            } else {
                assert forall|j: int| 0 <= j < i + 1 implies is_white_space(
                    #[trigger] s@.take(i + 1)[j],
                ) by {
                    if j < i {
                        assert(s@.take(i as int)[j] == s@[j]);
                    }
                }
            }
        }
        i = i + 1;
    }
    proof {
        if seen {
            assert(s@.subrange(hi as int, n as int) =~= s@.skip(hi as int));
        } else {
            assert(s@.take(n as int) =~= s@);
            assert(s@.skip(n as int) =~= Seq::<char>::empty());
        }
        trimmed_is_subrange(s@, lo as int, hi as int);
    }
    s.substring_char(lo, hi)
}

/// Returns `s` without its first character if that is `c`, else `s`.
pub fn strip_leading(s: &str, c: char) -> (out: &str)
    ensures
        out@ == without_leading(s@, c),
{
    let n: usize = s.unicode_len();
    if n > 0 && s.get_char(0) == c {
        s.substring_char(1, n)
    } else {
        s
    }
}

/// Returns `s` without its last character if that is `c`, else `s`.
pub fn strip_trailing(s: &str, c: char) -> (out: &str)
    ensures
        out@ == without_trailing(s@, c),
{
    let n: usize = s.unicode_len();
    if n > 0 && s.get_char(n - 1) == c {
        s.substring_char(0, n - 1)
    } else {
        s
    }
}

} // verus!
