//! Finding, counting, splitting and replacing inside a text.

use vstd::prelude::*;

use super::{chars, slice, text, views};

verus! {

/// Whether `pat` stands in `s` at position `i`.
pub open spec fn occurs_at(s: Seq<char>, pat: Seq<char>, i: int) -> bool {
    0 <= i && i + pat.len() <= s.len() && s.subrange(i, i + pat.len()) == pat
}

/// The first position from `from` on at which `pat` stands in `s`.
pub open spec fn find_from(s: Seq<char>, pat: Seq<char>, from: int) -> Option<int>
    decreases s.len() + 1 - from,
{
    if from < 0 || from + pat.len() > s.len() {
        None
    } else if occurs_at(s, pat, from) {
        Some(from)
    } else {
        find_from(s, pat, from + 1)
    }
}

/// The first position at which `pat` stands in `s`.
pub open spec fn find(s: Seq<char>, pat: Seq<char>) -> Option<int> {
    find_from(s, pat, 0)
}

/// Whether `pat` stands anywhere in `s`.
pub open spec fn contains(s: Seq<char>, pat: Seq<char>) -> bool {
    find(s, pat) is Some
}

/// Whether `s` begins with `pat`.
pub open spec fn starts_with(s: Seq<char>, pat: Seq<char>) -> bool {
    occurs_at(s, pat, 0)
}

/// The pieces of `s` from position `from` on, cut at each occurrence of `sep`.
pub open spec fn split_from(s: Seq<char>, sep: Seq<char>, from: int) -> Seq<Seq<char>>
    decreases s.len() + 1 - from,
{
    match find_from(s, sep, from) {
        Some(i) => if sep.len() > 0 && from <= i && i + sep.len() <= s.len() {
            seq![s.subrange(from, i)] + split_from(s, sep, i + sep.len())
        } else {
            seq![s.skip(from)]
        },
        None => seq![s.skip(from)],
    }
}

/// The pieces of `s`, cut at each occurrence of `sep`.
pub open spec fn split(s: Seq<char>, sep: Seq<char>) -> Seq<Seq<char>> {
    split_from(s, sep, 0)
}

/// `s` from position `from` on, with each occurrence of `pat` replaced by `with`.
pub open spec fn replace_from(s: Seq<char>, pat: Seq<char>, with: Seq<char>, from: int) -> Seq<char>
    decreases s.len() + 1 - from,
{
    match find_from(s, pat, from) {
        Some(i) => if pat.len() > 0 && from <= i && i + pat.len() <= s.len() {
            s.subrange(from, i) + with + replace_from(s, pat, with, i + pat.len())
        } else {
            s.skip(from)
        },
        None => s.skip(from),
    }
}

/// `s` with each occurrence of `pat`, found from the left, replaced by `with`.
pub open spec fn replace(s: Seq<char>, pat: Seq<char>, with: Seq<char>) -> Seq<char> {
    replace_from(s, pat, with, 0)
}

/// How often `pat` is found in `s` from position `from` on, each search starting where the
/// previous match ended.
pub open spec fn count_from(s: Seq<char>, pat: Seq<char>, from: int) -> nat
    decreases s.len() + 1 - from,
{
    match find_from(s, pat, from) {
        Some(i) => if pat.len() > 0 && from <= i && i + pat.len() <= s.len() {
            1 + count_from(s, pat, i + pat.len())
        } else {
            0
        },
        None => 0,
    }
}

/// The number of non-overlapping occurrences of `pat` in `s`; the empty pattern stands before
/// each character and at the end.
pub open spec fn count_matches(s: Seq<char>, pat: Seq<char>) -> nat {
    if pat.len() == 0 {
        s.len() + 1
    } else {
        count_from(s, pat, 0)
    }
}

/// `s` with its first occurrence of `pat` replaced by `with`.
pub open spec fn replace_first(s: Seq<char>, pat: Seq<char>, with: Seq<char>) -> Seq<char> {
    match find(s, pat) {
        Some(i) => s.take(i) + with + s.skip(i + pat.len()),
        None => s,
    }
}

/// The text of `s` after the first `start` and before the next `end`.
pub open spec fn between(s: Seq<char>, start: Seq<char>, end: Seq<char>) -> Option<Seq<char>> {
    match find(s, start) {
        Some(i) => match find_from(s, end, i + start.len()) {
            Some(j) => Some(s.subrange(i + start.len(), j)),
            None => None,
        },
        None => None,
    }
}

/// A position that `find_from` gives is the first one that fits; where it gives none, none fits.
pub proof fn find_is_first(s: Seq<char>, pat: Seq<char>, from: int)
    requires
        0 <= from,
    ensures
        find_from(s, pat, from) matches Some(i) ==> {
            &&& from <= i
            &&& occurs_at(s, pat, i)
            &&& forall|j: int| from <= j < i ==> !occurs_at(s, pat, j)
        },
        find_from(s, pat, from) is None ==> forall|j: int| from <= j ==> !occurs_at(s, pat, j),
    decreases s.len() + 1 - from,
{
    if from + pat.len() <= s.len() && !occurs_at(s, pat, from) {
        find_is_first(s, pat, from + 1);
    }
}

/// The pieces with `c` put in front of the first.
pub open spec fn led_pieces(c: char, pieces: Seq<Seq<char>>) -> Seq<Seq<char>> {
    seq![seq![c] + pieces[0]] + pieces.drop_first()
}

/// The pieces of `s`, cut at each `c`, character by character.
pub open spec fn pieces_of(s: Seq<char>, c: char) -> Seq<Seq<char>>
    decreases s.len(),
{
    if s.len() == 0 {
        seq![Seq::empty()]
    } else if s[0] == c {
        seq![Seq::empty()] + pieces_of(s.drop_first(), c)
    } else {
        led_pieces(s[0], pieces_of(s.drop_first(), c))
    }
}

/// Cutting at a single character goes character by character.
pub proof fn split_steps(s: Seq<char>, c: char, from: int)
    requires
        0 <= from <= s.len(),
    ensures
        split_from(s, seq![c], from) == pieces_of(s.skip(from), c),
        pieces_of(s.skip(from), c).len() > 0,
    decreases s.len() - from,
{
    let sep = seq![c];
    let rest = s.skip(from);
    find_is_first(s, sep, from);
    if from == s.len() {
        assert(rest =~= Seq::empty());
        assert(split_from(s, sep, from) =~= pieces_of(rest, c));
    } else {
        split_steps(s, c, from + 1);
        find_is_first(s, sep, from + 1);
        assert(rest.drop_first() =~= s.skip(from + 1));
        assert(s.subrange(from, from + 1) =~= seq![s[from]]);
        assert(seq![s[from]][0] == s[from] && sep[0] == c);
        assert(occurs_at(s, sep, from) <==> s[from] == c);
        let later = split_from(s, sep, from + 1);
        if s[from] == c {
            assert(find_from(s, sep, from) == Some(from));
            assert(s.subrange(from, from) =~= Seq::empty());
            assert(split_from(s, sep, from) =~= seq![Seq::empty()] + later);
        } else {
            assert(find_from(s, sep, from) == find_from(s, sep, from + 1));
            match find_from(s, sep, from) {
                Some(i) => {
                    assert(s.subrange(from, i) =~= seq![s[from]] + s.subrange(from + 1, i));
                    assert(later =~= seq![s.subrange(from + 1, i)] + split_from(s, sep, i + 1));
                    assert(later.drop_first() =~= split_from(s, sep, i + 1));
                },
                None => {
                    assert(s.skip(from) =~= seq![s[from]] + s.skip(from + 1));
                    assert(later.drop_first() =~= Seq::empty());
                },
            }
            assert(split_from(s, sep, from) =~= led_pieces(s[from], later));
        }
    }
}

/// What is cut in two goes: the pieces of `s + t` are those of `s` but the last, and those of
/// that last piece followed by `t`.
pub proof fn pieces_of_concat(s: Seq<char>, t: Seq<char>, c: char)
    ensures
        pieces_of(s, c).len() > 0,
        pieces_of(s + t, c) == pieces_of(s, c).drop_last() + pieces_of(
            pieces_of(s, c).last() + t,
            c,
        ),
    decreases s.len(),
{
    let p = pieces_of(s, c);
    if s.len() == 0 {
        assert(s + t =~= t);
        assert(p.last() + t =~= t);
        assert(p.drop_last() =~= Seq::empty());
        assert(p.drop_last() + pieces_of(t, c) =~= pieces_of(t, c));
    } else {
        let s1 = s.drop_first();
        let p1 = pieces_of(s1, c);
        pieces_of_concat(s1, t, c);
        assert((s + t).drop_first() =~= s1 + t);
        let q1 = pieces_of(p1.last() + t, c);
        if s[0] == c {
            assert(p.last() == p1.last());
            assert(p.drop_last() =~= seq![Seq::empty()] + p1.drop_last());
            assert(pieces_of(s + t, c) =~= p.drop_last() + q1);
        } else if p1.len() == 1 {
            assert(p.len() == 1);
            assert(p.last() == seq![s[0]] + p1[0]);
            single_piece(s1, c);
            assert(p.last() =~= s);
            assert(p.drop_last() =~= Seq::empty());
            assert(p.drop_last() + pieces_of(s + t, c) =~= pieces_of(s + t, c));
        } else {
            assert(p.last() == p1.last());
            assert(p.drop_last() =~= led_pieces(s[0], p1.drop_last()));
            assert(pieces_of(s1 + t, c)[0] == p1[0]);
            assert(pieces_of(s + t, c) =~= p.drop_last() + q1);
        }
    }
}

/// A text that is not cut is its only piece.
proof fn single_piece(s: Seq<char>, c: char)
    requires
        pieces_of(s, c).len() == 1,
    ensures
        pieces_of(s, c)[0] == s,
    decreases s.len(),
{
    if s.len() > 0 {
        let rest = pieces_of(s.drop_first(), c);
        split_steps(s.drop_first(), c, 0);
        assert(s.drop_first().skip(0) =~= s.drop_first());
        assert(s[0] != c);
        single_piece(s.drop_first(), c);
        assert(seq![s[0]] + s.drop_first() =~= s);
    }
}

/// What is cut at each `c` holds no `c` any more.
pub proof fn pieces_lack_separator(s: Seq<char>, c: char, from: int)
    requires
        0 <= from <= s.len(),
    ensures
        forall|i: int, k: int|
            0 <= i < split_from(s, seq![c], from).len() && 0 <= k < split_from(
                s,
                seq![c],
                from,
            )[i].len() ==> #[trigger] split_from(s, seq![c], from)[i][k] != c,
    decreases s.len() + 1 - from,
{
    let sep = seq![c];
    find_is_first(s, sep, from);
    let pieces = split_from(s, sep, from);
    assert forall|j: int| from <= j < s.len() && s[j] == c implies occurs_at(s, sep, j) by {
        assert(s.subrange(j, j + 1) =~= sep);
    }
    match find_from(s, sep, from) {
        Some(i) => {
            let rest = split_from(s, sep, i + 1);
            pieces_lack_separator(s, c, i + 1);
            assert(pieces =~= seq![s.subrange(from, i)] + rest);
            assert forall|n: int, k: int|
                0 <= n < pieces.len() && 0 <= k < pieces[n].len() implies #[trigger] pieces[n][k]
                != c by {
                if n == 0 {
                    assert(pieces[0][k] == s[from + k]);
                    if s[from + k] == c {
                        assert(occurs_at(s, sep, from + k));
                    }
                } else {
                    assert(pieces[n] == rest[n - 1]);
                    assert(rest[n - 1][k] != c);
                }
            }
        },
        None => {
            assert forall|n: int, k: int|
                0 <= n < pieces.len() && 0 <= k < pieces[n].len() implies #[trigger] pieces[n][k]
                != c by {
                assert(pieces[0][k] == s[from + k]);
                if s[from + k] == c {
                    assert(occurs_at(s, sep, from + k));
                }
            }
        },
    }
}

/// Whether `pat` stands in `s` at position `i`.
fn stands_at(s: &Vec<char>, pat: &Vec<char>, i: usize) -> (r: bool)
    requires
        i + pat.len() <= s.len(),
    ensures
        r == occurs_at(s@, pat@, i as int),
{
    let mut k: usize = 0;
    while k < pat.len()
        invariant
            k <= pat.len(),
            i + pat.len() <= s.len(),
            forall|j: int| 0 <= j < k ==> s@[i + j] == pat@[j],
        decreases pat@.len() - k,
    {
        if s[i + k] != pat[k] {
            assert(s@.subrange(i as int, i + pat@.len())[k as int] != pat@[k as int]);
            return false;
        }
        k += 1;
    }
    assert(s@.subrange(i as int, i + pat@.len()) =~= pat@);
    true
}

/// The first position from `from` on at which `pat` stands in `s`.
pub fn find_chars(s: &Vec<char>, pat: &Vec<char>, from: usize) -> (r: Option<usize>)
    requires
        from <= s@.len(),
    ensures
        match r {
            Some(i) => find_from(s@, pat@, from as int) == Some(i as int) && from <= i && i
                + pat.len() <= s.len(),
            None => find_from(s@, pat@, from as int) is None,
        },
{
    let mut i: usize = from;
    while pat.len() <= s.len() - i
        invariant
            from <= i <= s@.len(),
            find_from(s@, pat@, from as int) == find_from(s@, pat@, i as int),
        decreases s@.len() - i,
    {
        if stands_at(s, pat, i) {
            return Some(i);
        }
        if i == s.len() {
            assert(s@.subrange(i as int, i + pat@.len()) =~= pat@);
            return None;
        }
        i += 1;
    }
    None
}

/// The pieces of `s`, cut at each occurrence of `sep`.
pub fn split_text(s: &str, sep: &str) -> (r: Vec<String>)
    requires
        sep@.len() > 0,
    ensures
        views(r@) == split(s@, sep@),
        r@.len() > 0,
{
    let c = chars(s);
    let p = chars(sep);
    let mut out: Vec<String> = Vec::new();
    let mut from: usize = 0;
    loop
        invariant
            from <= c@.len(),
            c@ == s@,
            p@ == sep@,
            p@.len() > 0,
            views(out@) + split_from(s@, sep@, from as int) == split(s@, sep@),
        decreases c@.len() - from,
    {
        match find_chars(&c, &p, from) {
            Some(i) => {
                let ghost before = views(out@);
                out.push(slice(&c, from, i));
                assert(views(out@) =~= before.push(s@.subrange(from as int, i as int)));
                assert(views(out@) + split_from(s@, sep@, i + p@.len()) =~= before + split_from(
                    s@,
                    sep@,
                    from as int,
                ));
                from = i + p.len();
            },
            None => {
                let ghost before = views(out@);
                out.push(slice(&c, from, c.len()));
                assert(s@.subrange(from as int, s@.len() as int) =~= s@.skip(from as int));
                assert(views(out@) =~= before + split_from(s@, sep@, from as int));
                return out;
            },
        }
    }
}

/// `s` with each occurrence of `pat` replaced by `with`.
pub fn replace_text(s: &str, pat: &str, with: &str) -> (r: String)
    requires
        pat@.len() > 0,
    ensures
        r@ == replace(s@, pat@, with@),
{
    let c = chars(s);
    let p = chars(pat);
    let mut out = String::new();
    let mut from: usize = 0;
    assert(out@ + replace_from(s@, pat@, with@, 0) =~= replace(s@, pat@, with@));
    loop
        invariant
            from <= c@.len(),
            c@ == s@,
            p@ == pat@,
            p@.len() > 0,
            out@ + replace_from(s@, pat@, with@, from as int) == replace(s@, pat@, with@),
        decreases c@.len() - from,
    {
        match find_chars(&c, &p, from) {
            Some(i) => {
                let ghost before = out@;
                let piece = slice(&c, from, i);
                out.append(piece.as_str());
                out.append(with);
                assert(out@ + replace_from(s@, pat@, with@, i + p@.len()) =~= before
                    + replace_from(s@, pat@, with@, from as int));
                from = i + p.len();
            },
            None => {
                let piece = slice(&c, from, c.len());
                assert(s@.subrange(from as int, s@.len() as int) =~= s@.skip(from as int));
                out.append(piece.as_str());
                return out;
            },
        }
    }
}

/// The number of non-overlapping occurrences of `pat` in `s`.
pub fn count_text_matches(s: &str, pat: &str) -> (r: u128)
    ensures
        r == count_matches(s@, pat@),
{
    let c = chars(s);
    let p = chars(pat);
    if p.len() == 0 {
        return c.len() as u128 + 1;
    }
    let mut found: u128 = 0;
    let mut from: usize = 0;
    loop
        invariant
            found <= from <= c.len(),
            c@ == s@,
            p@ == pat@,
            p@.len() > 0,
            found + count_from(s@, pat@, from as int) == count_from(s@, pat@, 0),
        decreases c@.len() - from,
    {
        match find_chars(&c, &p, from) {
            Some(i) => {
                found += 1;
                from = i + p.len();
            },
            None => {
                return found;
            },
        }
    }
}

/// `s` with its first occurrence of `pat` replaced by `with`.
pub fn replace_first_text(s: &str, pat: &str, with: &str) -> (r: String)
    ensures
        r@ == replace_first(s@, pat@, with@),
{
    let c = chars(s);
    let p = chars(pat);
    match find_chars(&c, &p, 0) {
        Some(i) => {
            let mut out = slice(&c, 0, i);
            assert(c@.subrange(0, i as int) =~= s@.take(i as int));
            out.append(with);
            let rest = slice(&c, i + p.len(), c.len());
            assert(c@.subrange(i + p@.len(), c@.len() as int) =~= s@.skip(i + p@.len()));
            out.append(rest.as_str());
            out
        },
        None => text(s),
    }
}

/// The text of `s` after the first `start` and before the next `end`.
pub fn extract_between(s: &str, start: &str, end: &str) -> (r: Option<String>)
    ensures
        super::opt_view(r) == between(s@, start@, end@),
{
    let c = chars(s);
    let a = chars(start);
    match find_chars(&c, &a, 0) {
        Some(i) => {
            let b = chars(end);
            let from: usize = i + a.len();
            match find_chars(&c, &b, from) {
                Some(j) => Some(slice(&c, from, j)),
                None => None,
            }
        },
        None => None,
    }
}

/// Whether `pat` stands anywhere in `s`.
pub fn contains_text(s: &str, pat: &str) -> (r: bool)
    ensures
        r == contains(s@, pat@),
{
    let c = chars(s);
    let p = chars(pat);
    find_chars(&c, &p, 0).is_some()
}

/// Whether `s` begins with `pat`.
pub fn starts_with_text(s: &str, pat: &str) -> (r: bool)
    ensures
        r == starts_with(s@, pat@),
{
    let c = chars(s);
    let p = chars(pat);
    p.len() <= c.len() && stands_at(&c, &p, 0)
}

/// A label and the text behind it stand where they are put.
pub broadcast proof fn label_stands(a: Seq<char>, label: Seq<char>, value: Seq<char>)
    ensures
        #[trigger] contains(a + label + value, label + value),
{
    let s = a + label + value;
    let pat = label + value;
    assert(s.subrange(a.len() as int, (a.len() + pat.len()) as int) =~= pat);
    find_is_first(s, pat, 0);
    assert(occurs_at(s, pat, a.len() as int));
}

/// A text stands where it is put.
pub broadcast proof fn part_stands(a: Seq<char>, part: Seq<char>)
    ensures
        #[trigger] contains(a + part, part),
{
    let s = a + part;
    assert(s.subrange(a.len() as int, (a.len() + part.len()) as int) =~= part);
    find_is_first(s, part, 0);
    assert(occurs_at(s, part, a.len() as int));
}

/// What stands in a text stands in a longer one.
pub broadcast proof fn contained_in_longer(a: Seq<char>, b: Seq<char>, pat: Seq<char>)
    requires
        contains(a, pat),
    ensures
        #[trigger] contains(a + b, pat),
{
    let s = a + b;
    find_is_first(a, pat, 0);
    let i = find(a, pat)->0;
    assert(s.subrange(i, i + pat.len()) =~= a.subrange(i, i + pat.len()));
    find_is_first(s, pat, 0);
    assert(occurs_at(s, pat, i));
}

/// What stands in the rest of a text stands in the text.
pub broadcast proof fn contained_at_the_end(a: Seq<char>, b: Seq<char>, pat: Seq<char>)
    requires
        contains(b, pat),
    ensures
        #[trigger] contains(a + b, pat),
{
    let s = a + b;
    find_is_first(b, pat, 0);
    let i = find(b, pat)->0;
    assert(s.subrange(a.len() + i, a.len() + i + pat.len()) =~= b.subrange(i, i + pat.len()));
    find_is_first(s, pat, 0);
    assert(occurs_at(s, pat, a.len() + i));
}

/// A text stands in itself, at its beginning.
pub broadcast proof fn whole_stands(s: Seq<char>)
    ensures
        #[trigger] contains(s, s),
{
    assert(s.subrange(0, s.len() as int) =~= s);
    find_is_first(s, s, 0);
    assert(occurs_at(s, s, 0));
}

/// What a text that is put together from parts tells.
pub broadcast group group_contained {
    label_stands,
    part_stands,
    contained_in_longer,
    contained_at_the_end,
    whole_stands,
}

} // verus!
