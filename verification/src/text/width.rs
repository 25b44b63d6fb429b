//! Byte lengths: how many bytes a text takes in UTF-8, and cutting a text to a byte budget.

use vstd::prelude::*;
use vstd::utf8::*;

use super::{chars, slice, text};

verus! {

/// The number of bytes of a character in UTF-8.
pub open spec fn char_width(c: char) -> nat {
    if (c as u32) < 0x80 {
        1
    } else if (c as u32) < 0x800 {
        2
    } else if (c as u32) < 0x10000 {
        3
    } else {
        4
    }
}

/// The number of bytes of a text in UTF-8.
pub open spec fn byte_len(s: Seq<char>) -> nat
    decreases s.len(),
{
    if s.len() == 0 {
        0
    } else {
        byte_len(s.drop_last()) + char_width(s.last())
    }
}

/// The longest prefix of `s` that takes at most `max` bytes.
pub open spec fn prefix_within(s: Seq<char>, max: nat) -> Seq<char>
    decreases s.len(),
{
    if byte_len(s) <= max || s.len() == 0 {
        s
    } else {
        prefix_within(s.drop_last(), max)
    }
}

/// Whether `s` can be cut after exactly `n` bytes, or is no longer than that.
pub open spec fn cuts_cleanly(s: Seq<char>, n: nat) -> bool {
    byte_len(s) <= n || byte_len(prefix_within(s, n)) == n
}

/// `s` itself where it takes at most `n` bytes, else its first `n` bytes followed by `mark`.
pub open spec fn shortened(s: Seq<char>, n: nat, mark: Seq<char>) -> Seq<char> {
    if byte_len(s) > n {
        prefix_within(s, n) + mark
    } else {
        s
    }
}

/// Byte lengths add up.
pub proof fn byte_len_concat(a: Seq<char>, b: Seq<char>)
    ensures
        byte_len(a + b) == byte_len(a) + byte_len(b),
    decreases b.len(),
{
    if b.len() == 0 {
        assert(a + b =~= a);
    } else {
        assert((a + b).drop_last() =~= a + b.drop_last());
        byte_len_concat(a, b.drop_last());
    }
}

/// `byte_len` is the length of the UTF-8 encoding.
pub proof fn byte_len_is_encoded_len(s: Seq<char>)
    ensures
        encode_utf8(s).len() == byte_len(s),
    decreases s.len(),
{
    if s.len() > 0 {
        let rest = s.drop_first();
        byte_len_is_encoded_len(rest);
        assert(s =~= seq![s[0]] + rest);
        byte_len_concat(seq![s[0]], rest);
        assert(seq![s[0]].drop_last() =~= Seq::<char>::empty());
        assert(byte_len(seq![s[0]]) == char_width(s[0])) by {
            assert(byte_len(Seq::<char>::empty()) == 0);
        }
        char_is_scalar(s[0]);
    }
}

/// A longer prefix takes at least as many bytes.
proof fn byte_len_monotone(s: Seq<char>, i: int, j: int)
    requires
        0 <= i <= j <= s.len(),
    ensures
        byte_len(s.take(i)) <= byte_len(s.take(j)),
    decreases j - i,
{
    if i < j {
        assert(s.take(j).drop_last() =~= s.take(j - 1));
        byte_len_monotone(s, i, j - 1);
    }
}

/// What is kept of `s` is a prefix of it, fits the budget, and cannot be made longer.
pub proof fn prefix_within_is_longest(s: Seq<char>, max: nat)
    ensures
        prefix_within(s, max).len() <= s.len(),
        prefix_within(s, max) == s.take(prefix_within(s, max).len() as int),
        byte_len(prefix_within(s, max)) <= max,
        forall|j: int|
            #![trigger s.take(j)]
            prefix_within(s, max).len() < j <= s.len() ==> byte_len(s.take(j)) > max,
    decreases s.len(),
{
    if byte_len(s) <= max || s.len() == 0 {
        assert(s =~= s.take(s.len() as int));
    } else {
        let t = s.drop_last();
        prefix_within_is_longest(t, max);
        let n = prefix_within(t, max).len() as int;
        assert(t.take(n) =~= s.take(n));
        assert forall|j: int| #![trigger s.take(j)] n < j <= s.len() implies byte_len(s.take(j))
            > max by {
            if j == s.len() {
                assert(s.take(j) =~= s);
            } else {
                assert(t.take(j) =~= s.take(j));
            }
        }
    }
}

/// A prefix that fits while the next longer one does not is the longest that fits.
proof fn prefix_found(s: Seq<char>, max: nat, i: int)
    requires
        0 <= i <= s.len(),
        byte_len(s.take(i)) <= max,
        i < s.len() ==> byte_len(s.take(i + 1)) > max,
    ensures
        prefix_within(s, max) == s.take(i),
{
    prefix_within_is_longest(s, max);
    let n = prefix_within(s, max).len() as int;
    if n < i {
        assert(byte_len(s.take(i)) > max);
    } else if n > i {
        byte_len_monotone(s, i + 1, n);
    }
}

/// The number of bytes of a character in UTF-8.
fn width_of(c: char) -> (r: usize)
    ensures
        r == char_width(c),
        1 <= r <= 4,
{
    let code: u32 = c as u32;
    if code < 0x80 {
        1
    } else if code < 0x800 {
        2
    } else if code < 0x10000 {
        3
    } else {
        4
    }
}

/// The number of bytes of `s`.
pub fn byte_count(s: &str) -> (r: usize)
    ensures
        r == byte_len(s@),
{
    proof {
        byte_len_is_encoded_len(s@);
    }
    s.as_bytes().len()
}

/// Whether `s` takes more than `n` bytes.
pub fn longer_than(s: &str, n: usize) -> (r: bool)
    ensures
        r == (byte_len(s@) > n),
{
    byte_count(s) > n
}

/// The longest prefix of `s` that takes at most `max` bytes.
pub fn safe_truncate(s: &str, max: usize) -> (r: String)
    ensures
        r@ == prefix_within(s@, max as nat),
{
    let c = chars(s);
    let mut i: usize = 0;
    let mut used: usize = 0;
    while i < c.len()
        invariant
            i <= c@.len(),
            c@ == s@,
            used == byte_len(s@.take(i as int)),
            used <= max,
        decreases c@.len() - i,
    {
        let w: usize = width_of(c[i]);
        assert(s@.take(i + 1).drop_last() =~= s@.take(i as int));
        if w > max - used {
            proof {
                prefix_found(s@, max as nat, i as int);
            }
            assert(c@.subrange(0, i as int) =~= s@.take(i as int));
            return slice(&c, 0, i);
        }
        used += w;
        i += 1;
    }
    proof {
        prefix_found(s@, max as nat, s@.len() as int);
    }
    assert(s@.take(s@.len() as int) =~= s@);
    text(s)
}

/// Whether `s` can be cut after exactly `n` bytes, or is no longer than that.
pub fn can_cut(s: &str, n: usize) -> (r: bool)
    ensures
        r == cuts_cleanly(s@, n as nat),
{
    if byte_count(s) <= n {
        true
    } else {
        let kept = safe_truncate(s, n);
        byte_count(kept.as_str()) == n
    }
}

/// `s` itself where it takes at most `n` bytes, else its first `n` bytes followed by `mark`.
pub fn shorten(s: &str, n: usize, mark: &str) -> (r: String)
    requires
        cuts_cleanly(s@, n as nat),
    ensures
        r@ == shortened(s@, n as nat, mark@),
{
    if longer_than(s, n) {
        let mut out = safe_truncate(s, n);
        out.append(mark);
        out
    } else {
        text(s)
    }
}

} // verus!
