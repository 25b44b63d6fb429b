//! White space, lines and words.

use vstd::prelude::*;

use super::search::{find_chars, find_from};
use super::{chars, slice, views};

verus! {

/// Whether `c` has the Unicode property White_Space.
pub open spec fn is_white(c: char) -> bool {
    let u = c as u32;
    ||| 0x9 <= u <= 0xd
    ||| u == 0x20
    ||| u == 0x85
    ||| u == 0xa0
    ||| u == 0x1680
    ||| 0x2000 <= u <= 0x200a
    ||| u == 0x2028
    ||| u == 0x2029
    ||| u == 0x202f
    ||| u == 0x205f
    ||| u == 0x3000
}

/// `s` without the white space at its start.
pub open spec fn trim_start(s: Seq<char>) -> Seq<char>
    decreases s.len(),
{
    if s.len() > 0 && is_white(s[0]) {
        trim_start(s.drop_first())
    } else {
        s
    }
}

/// `s` without the white space at its end.
pub open spec fn trim_end(s: Seq<char>) -> Seq<char>
    decreases s.len(),
{
    if s.len() > 0 && is_white(s.last()) {
        trim_end(s.drop_last())
    } else {
        s
    }
}

/// `s` without the white space at both ends.
pub open spec fn trim(s: Seq<char>) -> Seq<char> {
    trim_end(trim_start(s))
}

/// Whether `s` holds white space only.
pub open spec fn is_blank(s: Seq<char>) -> bool {
    trim(s).len() == 0
}

/// `line` without a carriage return at its end.
pub open spec fn without_cr(line: Seq<char>) -> Seq<char> {
    if line.len() > 0 && line.last() == '\r' {
        line.drop_last()
    } else {
        line
    }
}

/// The lines of `s` from position `from` on. A line ends with a line feed, or with a carriage
/// return and a line feed; the last one may lack its ending.
pub open spec fn lines_from(s: Seq<char>, from: int) -> Seq<Seq<char>>
    decreases s.len() - from,
{
    if from < 0 || from >= s.len() {
        Seq::empty()
    } else {
        match find_from(s, seq!['\n'], from) {
            Some(i) => if from <= i < s.len() {
                seq![without_cr(s.subrange(from, i))] + lines_from(s, i + 1)
            } else {
                seq![s.skip(from)]
            },
            None => seq![s.skip(from)],
        }
    }
}

/// The lines of `s`, without their endings.
pub open spec fn lines(s: Seq<char>) -> Seq<Seq<char>> {
    lines_from(s, 0)
}

/// The first line of `s`, empty where there is none.
pub open spec fn first_line(s: Seq<char>) -> Seq<char> {
    if lines(s).len() > 0 {
        lines(s)[0]
    } else {
        Seq::empty()
    }
}

/// The number of characters at the start of `s` that are not white space.
pub open spec fn word_len(s: Seq<char>) -> nat
    decreases s.len(),
{
    if s.len() == 0 || is_white(s[0]) {
        0
    } else {
        1 + word_len(s.drop_first())
    }
}

/// The words of `s`: its longest runs of characters that are not white space.
pub open spec fn words(s: Seq<char>) -> Seq<Seq<char>>
    decreases s.len(),
{
    if s.len() == 0 {
        Seq::empty()
    } else if is_white(s[0]) {
        words(s.drop_first())
    } else if word_len(s) <= s.len() {
        seq![s.take(word_len(s) as int)] + words(s.skip(word_len(s) as int))
    } else {
        Seq::empty()
    }
}

/// Trimming a trimmed text changes nothing.
pub proof fn trimmed_stays(s: Seq<char>)
    ensures
        trim(trim(s)) == trim(s),
{
    start_is_trimmed(s);
    let start = trim_start(s);
    end_is_trimmed(start);
    let kept = trim_end(start);
    if kept.len() > 0 {
        assert(kept[0] == start[0]);
    }
}

/// What is left does not begin with white space.
proof fn start_is_trimmed(s: Seq<char>)
    ensures
        trim_start(s).len() > 0 ==> !is_white(trim_start(s)[0]),
    decreases s.len(),
{
    if s.len() > 0 && is_white(s[0]) {
        start_is_trimmed(s.drop_first());
    }
}

/// What is left is a beginning that does not end with white space.
proof fn end_is_trimmed(s: Seq<char>)
    ensures
        trim_end(s).len() > 0 ==> !is_white(trim_end(s).last()),
        trim_end(s).is_prefix_of(s),
    decreases s.len(),
{
    if s.len() > 0 && is_white(s.last()) {
        end_is_trimmed(s.drop_last());
        let kept = trim_end(s);
        assert(kept =~= s.take(kept.len() as int));
    } else {
        assert(s =~= s.take(s.len() as int));
    }
}

/// Whether `c` has the Unicode property White_Space.
pub fn white(c: char) -> (r: bool)
    ensures
        r == is_white(c),
{
    let u: u32 = c as u32;
    (0x9 <= u && u <= 0xd) || u == 0x20 || u == 0x85 || u == 0xa0 || u == 0x1680 || (0x2000 <= u
        && u <= 0x200a) || u == 0x2028 || u == 0x2029 || u == 0x202f || u == 0x205f || u == 0x3000
}

/// `s` without the white space at both ends.
pub fn trim_text(s: &str) -> (r: String)
    ensures
        r@ == trim(s@),
{
    let c = chars(s);
    let mut i: usize = 0;
    assert(c@.skip(0) =~= c@);
    while i < c.len() && white(c[i])
        invariant
            i <= c@.len(),
            trim_start(c@.skip(i as int)) == trim_start(c@),
        decreases c@.len() - i,
    {
        assert(c@.skip(i as int).drop_first() =~= c@.skip(i + 1));
        i += 1;
    }
    let mut j: usize = c.len();
    let ghost kept = c@.skip(i as int);
    assert(trim_start(c@) == kept);
    assert(c@.subrange(i as int, j as int) =~= kept);
    while i < j && white(c[j - 1])
        invariant
            i <= j <= c@.len(),
            trim_end(c@.subrange(i as int, j as int)) == trim_end(kept),
        decreases j,
    {
        assert(c@.subrange(i as int, j as int).drop_last() =~= c@.subrange(i as int, j - 1));
        j -= 1;
    }
    slice(&c, i, j)
}

/// Whether `s` holds white space only.
pub fn blank(s: &str) -> (r: bool)
    ensures
        r == is_blank(s@),
{
    let t = trim_text(s);
    t.as_str().is_empty()
}

/// The lines of `s`, without their endings.
pub fn lines_of(s: &str) -> (r: Vec<String>)
    ensures
        views(r@) == lines(s@),
{
    let c = chars(s);
    let mut feed: Vec<char> = Vec::new();
    feed.push('\n');
    assert(feed@ =~= seq!['\n']);
    let mut out: Vec<String> = Vec::new();
    let mut from: usize = 0;
    assert(views(out@) + lines_from(s@, 0) =~= lines(s@));
    while from < c.len()
        invariant
            from <= c.len(),
            c@ == s@,
            feed@ == seq!['\n'],
            views(out@) + lines_from(s@, from as int) == lines(s@),
        decreases c@.len() - from,
    {
        let ghost before = views(out@);
        match find_chars(&c, &feed, from) {
            Some(i) => {
                let ghost whole = s@.subrange(from as int, i as int);
                if i > from && c[i - 1] == '\r' {
                    out.push(slice(&c, from, i - 1));
                    assert(whole.drop_last() =~= s@.subrange(from as int, i - 1));
                } else {
                    out.push(slice(&c, from, i));
                }
                assert(views(out@) =~= before.push(without_cr(whole)));
                assert(views(out@) + lines_from(s@, i + 1) =~= before + lines_from(
                    s@,
                    from as int,
                ));
                from = i + 1;
            },
            None => {
                out.push(slice(&c, from, c.len()));
                assert(s@.subrange(from as int, s@.len() as int) =~= s@.skip(from as int));
                assert(views(out@) =~= before + lines_from(s@, from as int));
                return out;
            },
        }
    }
    assert(views(out@) + lines_from(s@, from as int) =~= views(out@));
    out
}

/// The first line of `s`, empty where there is none.
pub fn first_line_of(s: &str) -> (r: String)
    ensures
        r@ == first_line(s@),
{
    let all = lines_of(s);
    if all.len() > 0 {
        assert(views(all@)[0] == all@[0]@);
        all[0].clone()
    } else {
        String::new()
    }
}

/// A word of `n` characters: `n` is where the leading run ends.
proof fn word_len_found(s: Seq<char>, n: nat)
    requires
        n <= s.len(),
        forall|j: int| 0 <= j < n ==> !is_white(#[trigger] s[j]),
        n < s.len() ==> is_white(s[n as int]),
    ensures
        word_len(s) == n,
    decreases s.len(),
{
    if n > 0 {
        let t = s.drop_first();
        assert forall|j: int| 0 <= j < n - 1 implies !is_white(#[trigger] t[j]) by {
            assert(t[j] == s[j + 1]);
        }
        word_len_found(t, (n - 1) as nat);
    }
}

/// The words of `s`.
pub fn words_of(s: &str) -> (r: Vec<String>)
    ensures
        views(r@) == words(s@),
{
    let c = chars(s);
    let mut out: Vec<String> = Vec::new();
    let mut i: usize = 0;
    assert(s@.skip(0) =~= s@);
    assert(views(out@) + words(s@.skip(0)) =~= words(s@));
    while i < c.len()
        invariant
            i <= c.len(),
            c@ == s@,
            views(out@) + words(s@.skip(i as int)) == words(s@),
        decreases c@.len() - i,
    {
        let ghost rest = s@.skip(i as int);
        if white(c[i]) {
            assert(rest.drop_first() =~= s@.skip(i + 1));
            i += 1;
        } else {
            let mut j: usize = i;
            while j < c.len() && !white(c[j])
                invariant
                    i <= j <= c.len(),
                    c@ == s@,
                    rest == s@.skip(i as int),
                    forall|k: int| 0 <= k < j - i ==> !is_white(#[trigger] rest[k]),
                decreases c@.len() - j,
            {
                assert(rest[j - i] == s@[j as int]);
                j += 1;
            }
            proof {
                if j < c.len() {
                    assert(rest[j - i] == s@[j as int]);
                }
                word_len_found(rest, (j - i) as nat);
            }
            assert(j > i) by {
                assert(rest[0] == s@[i as int]);
            }
            let ghost before = views(out@);
            out.push(slice(&c, i, j));
            assert(rest.take(j - i) =~= s@.subrange(i as int, j as int));
            assert(rest.skip(j - i) =~= s@.skip(j as int));
            assert(views(out@) =~= before.push(rest.take(j - i)));
            assert(views(out@) + words(s@.skip(j as int)) =~= before + words(rest));
            i = j;
        }
    }
    assert(views(out@) + words(s@.skip(i as int)) =~= views(out@));
    out
}

} // verus!
