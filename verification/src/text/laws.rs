//! What holds of texts that are put together from parts, taken apart, cut and changed.

use vstd::prelude::*;

use super::case::{all_ascii, ascii_lowercase, ascii_uppercase};
use super::lines::{is_white, lines, lines_from, trim, without_cr, word_len, words};
use super::number::{decimal_is_read_back, is_digit, natural_of};
use super::search::{
    between, contains, count_from, count_matches, find_from, find_is_first, group_contained,
    occurs_at, replace, replace_first, replace_from, split, split_from,
};
use super::width::{byte_len, cuts_cleanly, prefix_within, prefix_within_is_longest, shortened};
use super::{decimal, join};

verus! {

/// Whether `whole` is made of the parts, one after the other, with `sep` between each two.
pub open spec fn is_joined(whole: Seq<char>, parts: Seq<Seq<char>>, sep: Seq<char>) -> bool {
    whole == join(parts, sep)
}

/// Joined parts stand one after the other, each two with the separator between them.
pub proof fn join_appends(parts: Seq<Seq<char>>, part: Seq<char>, sep: Seq<char>)
    ensures
        parts.len() > 0 ==> join(parts.push(part), sep) == join(parts, sep) + sep + part,
        parts.len() == 0 ==> join(parts.push(part), sep) == part,
        parts.len() == 0 ==> join(parts, sep) == Seq::<char>::empty(),
{
    assert(parts.push(part).drop_last() =~= parts);
}

/// Each of the parts that are joined stands in the whole.
pub proof fn joined_parts_stand(parts: Seq<Seq<char>>, sep: Seq<char>, i: int)
    requires
        0 <= i < parts.len(),
    ensures
        contains(join(parts, sep), parts[i]),
    decreases parts.len(),
{
    broadcast use group_contained;

    if parts.len() > 1 && i < parts.len() - 1 {
        joined_parts_stand(parts.drop_last(), sep, i);
        assert(parts.drop_last()[i] == parts[i]);
    }
}

/// What stands in a part that is joined stands in the whole.
pub proof fn joined_parts_tell(parts: Seq<Seq<char>>, sep: Seq<char>, i: int, pat: Seq<char>)
    requires
        0 <= i < parts.len(),
        contains(parts[i], pat),
    ensures
        contains(join(parts, sep), pat),
    decreases parts.len(),
{
    broadcast use group_contained;

    if parts.len() > 1 && i < parts.len() - 1 {
        joined_parts_tell(parts.drop_last(), sep, i, pat);
        assert(parts.drop_last()[i] == parts[i]);
    }
}

/// Whether `report` has the entries behind `head`, one after the other with `sep` between them.
pub open spec fn lists_behind(
    report: Seq<char>,
    head: Seq<char>,
    entries: Seq<Seq<char>>,
    sep: Seq<char>,
) -> bool {
    report == head + join(entries, sep)
}

// ─── Splitting and replacing ────────────────────────────────────────────────

proof fn lead_joins(a: Seq<char>, rest: Seq<Seq<char>>, sep: Seq<char>)
    requires
        rest.len() > 0,
    ensures
        join(seq![a] + rest, sep) == a + sep + join(rest, sep),
    decreases rest.len(),
{
    let parts = seq![a] + rest;
    if rest.len() == 1 {
        assert(parts.drop_last() =~= seq![a]);
        assert(join(parts.drop_last(), sep) == a);
        assert(join(parts, sep) == a + sep + parts.last());
    } else {
        assert(parts.drop_last() =~= seq![a] + rest.drop_last());
        lead_joins(a, rest.drop_last(), sep);
        assert(join(parts, sep) =~= a + sep + join(rest, sep));
    }
}

/// Nothing is lost where a text is split: the pieces, joined again, are the text; no piece holds
/// the separator.
pub proof fn split_joins_back(s: Seq<char>, sep: Seq<char>)
    requires
        sep.len() > 0,
    ensures
        join(split(s, sep), sep) == s,
        forall|i: int| 0 <= i < split(s, sep).len() ==> !contains(#[trigger] split(s, sep)[i], sep),
{
    split_rest_joins_back(s, sep, 0);
    assert(s.skip(0) =~= s);
}

proof fn split_rest_joins_back(s: Seq<char>, sep: Seq<char>, from: int)
    requires
        sep.len() > 0,
        0 <= from <= s.len(),
    ensures
        split_from(s, sep, from).len() > 0,
        join(split_from(s, sep, from), sep) == s.skip(from),
        forall|i: int|
            0 <= i < split_from(s, sep, from).len() ==> !contains(
                #[trigger] split_from(s, sep, from)[i],
                sep,
            ),
    decreases s.len() - from,
{
    find_is_first(s, sep, from);
    match find_from(s, sep, from) {
        Some(i) => {
            let piece = s.subrange(from, i);
            let next = i + sep.len();
            split_rest_joins_back(s, sep, next);
            lead_joins(piece, split_from(s, sep, next), sep);
            assert(s.skip(from) =~= piece + sep + s.skip(next));
            part_lacks(s, from, i, sep);
        },
        None => {
            assert(s.skip(from) =~= s.subrange(from, s.len() as int));
            part_lacks(s, from, s.len() as int, sep);
        },
    }
}

proof fn part_lacks(s: Seq<char>, i: int, j: int, pat: Seq<char>)
    requires
        0 <= i <= j <= s.len(),
        forall|k: int| i <= k < j ==> !#[trigger] occurs_at(s, pat, k),
        pat.len() > 0,
    ensures
        !contains(s.subrange(i, j), pat),
{
    let part = s.subrange(i, j);
    find_is_first(part, pat, 0);
    assert forall|k: int| 0 <= k implies !occurs_at(part, pat, k) by {
        if occurs_at(part, pat, k) {
            assert(part.subrange(k, k + pat.len()) =~= s.subrange(i + k, i + k + pat.len()));
            assert(occurs_at(s, pat, i + k));
        }
    }
}

/// To replace a text is to split at it and to join the pieces with what replaces it: every
/// occurrence goes, and the rest stays as it is.
pub proof fn replaced_is_split_and_joined(s: Seq<char>, pat: Seq<char>, with: Seq<char>)
    requires
        pat.len() > 0,
    ensures
        replace(s, pat, with) == join(split(s, pat), with),
{
    replaced_rest_is_joined(s, pat, with, 0);
}

proof fn replaced_rest_is_joined(s: Seq<char>, pat: Seq<char>, with: Seq<char>, from: int)
    requires
        pat.len() > 0,
        0 <= from <= s.len(),
    ensures
        split_from(s, pat, from).len() > 0,
        replace_from(s, pat, with, from) == join(split_from(s, pat, from), with),
    decreases s.len() - from,
{
    find_is_first(s, pat, from);
    match find_from(s, pat, from) {
        Some(i) => {
            replaced_rest_is_joined(s, pat, with, i + pat.len());
            lead_joins(s.subrange(from, i), split_from(s, pat, i + pat.len()), with);
        },
        None => {},
    }
}

/// There are as many matches as there are places at which a text is split.
pub proof fn matches_are_splits(s: Seq<char>, pat: Seq<char>)
    requires
        pat.len() > 0,
    ensures
        count_matches(s, pat) + 1 == split(s, pat).len(),
{
    rest_matches_are_splits(s, pat, 0);
}

proof fn rest_matches_are_splits(s: Seq<char>, pat: Seq<char>, from: int)
    requires
        pat.len() > 0,
        0 <= from <= s.len(),
    ensures
        count_from(s, pat, from) + 1 == split_from(s, pat, from).len(),
    decreases s.len() - from,
{
    find_is_first(s, pat, from);
    match find_from(s, pat, from) {
        Some(i) => {
            rest_matches_are_splits(s, pat, i + pat.len());
        },
        None => {},
    }
}

/// The first occurrence of a text is replaced, and nothing else.
pub proof fn first_occurrence_is_replaced(
    before: Seq<char>,
    pat: Seq<char>,
    after: Seq<char>,
    with: Seq<char>,
)
    requires
        forall|i: int| 0 <= i < before.len() ==> !#[trigger] occurs_at(before + pat + after, pat, i),
    ensures
        replace_first(before + pat + after, pat, with) == before + with + after,
{
    let s = before + pat + after;
    find_is_first(s, pat, 0);
    let at = before.len() as int;
    let next = at + pat.len();
    assert(s.subrange(at, next) =~= pat);
    assert(occurs_at(s, pat, at));
    assert(s.take(at) =~= before);
    assert(s.skip(next) =~= after);
}

/// What stands between a start and the next end is what is found between them.
pub proof fn text_between_is_found(
    before: Seq<char>,
    start: Seq<char>,
    middle: Seq<char>,
    end: Seq<char>,
    after: Seq<char>,
)
    requires
        ({
            let s = before + start + middle + end + after;
            let at = before.len() + start.len();
            &&& forall|i: int| 0 <= i < before.len() ==> !#[trigger] occurs_at(s, start, i)
            &&& forall|i: int| at <= i < at + middle.len() ==> !#[trigger] occurs_at(s, end, i)
        }),
    ensures
        between(before + start + middle + end + after, start, end) == Some(middle),
{
    let s = before + start + middle + end + after;
    let head = before.len() as int;
    let at = head + start.len();
    let stop = at + middle.len();
    assert(s.subrange(head, at) =~= start);
    assert(occurs_at(s, start, head));
    assert(s.subrange(stop, stop + end.len()) =~= end);
    assert(occurs_at(s, end, stop));
    find_is_first(s, start, 0);
    find_is_first(s, end, at);
    assert(s.subrange(at, stop) =~= middle);
}

// ─── Spaces, words and lines ────────────────────────────────────────────────

/// Whether a text is made of whitespace alone.
pub open spec fn all_white(s: Seq<char>) -> bool {
    forall|i: int| 0 <= i < s.len() ==> is_white(#[trigger] s[i])
}

/// A trimmed text has lost the whitespace at its ends, all of it and nothing else.
pub proof fn trim_takes_white_ends(front: Seq<char>, s: Seq<char>, back: Seq<char>)
    requires
        all_white(front),
        all_white(back),
        s.len() > 0 ==> !is_white(s[0]) && !is_white(s.last()),
    ensures
        trim(front + s + back) == s,
    decreases front.len() + back.len(),
{
    let whole = front + s + back;
    if front.len() > 0 {
        assert(whole[0] == front[0]);
        assert(whole.drop_first() =~= front.drop_first() + s + back);
        trim_takes_white_ends(front.drop_first(), s, back);
    } else if s.len() == 0 && back.len() > 0 {
        assert(whole[0] == back[0]);
        assert(whole.drop_first() =~= front + s + back.drop_first());
        trim_takes_white_ends(front, s, back.drop_first());
    } else if back.len() > 0 {
        assert(whole[0] == s[0]);
        assert(whole.last() == back.last());
        assert(whole.drop_last() =~= front + s + back.drop_last());
        trim_takes_white_ends(front, s, back.drop_last());
    } else {
        assert(whole =~= s);
    }
}

proof fn word_ends_at_white(a: Seq<char>, c: char, b: Seq<char>)
    requires
        is_white(c),
    ensures
        word_len(a + seq![c] + b) == word_len(a),
        word_len(a) <= a.len(),
    decreases a.len(),
{
    let whole = a + seq![c] + b;
    if a.len() > 0 {
        assert(whole[0] == a[0]);
        if !is_white(a[0]) {
            assert(whole.drop_first() =~= a.drop_first() + seq![c] + b);
            word_ends_at_white(a.drop_first(), c, b);
        }
    } else {
        assert(whole[0] == c);
    }
}

/// A text is taken apart into words at each piece of whitespace.
pub proof fn words_are_split_at_white(a: Seq<char>, c: char, b: Seq<char>)
    requires
        is_white(c),
    ensures
        words(a + seq![c] + b) == words(a) + words(b),
    decreases a.len(),
{
    let whole = a + seq![c] + b;
    if a.len() == 0 {
        assert(whole[0] == c);
        assert(whole.drop_first() =~= b);
        assert(words(a) + words(b) =~= words(b));
    } else if is_white(a[0]) {
        assert(whole[0] == a[0]);
        assert(whole.drop_first() =~= a.drop_first() + seq![c] + b);
        words_are_split_at_white(a.drop_first(), c, b);
    } else {
        word_ends_at_white(a, c, b);
        let n = word_len(a) as int;
        assert(whole[0] == a[0]);
        assert(n >= 1);
        assert(whole.take(n) =~= a.take(n));
        assert(whole.skip(n) =~= a.skip(n) + seq![c] + b);
        words_are_split_at_white(a.skip(n), c, b);
        assert(words(whole) =~= words(a) + words(b));
    }
}

/// A text without whitespace is one word.
pub proof fn text_without_white_is_a_word(s: Seq<char>)
    requires
        s.len() > 0,
        forall|i: int| 0 <= i < s.len() ==> !is_white(#[trigger] s[i]),
    ensures
        words(s) == seq![s],
{
    all_of_a_word(s);
    assert(s.take(s.len() as int) =~= s);
    assert(s.skip(s.len() as int) =~= Seq::<char>::empty());
    assert(words(s.skip(s.len() as int)) =~= Seq::<Seq<char>>::empty());
    assert(words(s) =~= seq![s]);
}

proof fn all_of_a_word(s: Seq<char>)
    requires
        forall|i: int| 0 <= i < s.len() ==> !is_white(#[trigger] s[i]),
    ensures
        word_len(s) == s.len(),
    decreases s.len(),
{
    if s.len() > 0 {
        all_of_a_word(s.drop_first());
    }
}

proof fn find_behind(p: Seq<char>, s: Seq<char>, pat: Seq<char>, from: int)
    requires
        0 <= from,
    ensures
        find_from(p + s, pat, p.len() + from) == match find_from(s, pat, from) {
            Some(i) => Some(p.len() + i),
            None => None,
        },
    decreases s.len() + 1 - from,
{
    if from + pat.len() <= s.len() {
        assert((p + s).subrange(p.len() + from, p.len() + from + pat.len()) =~= s.subrange(
            from,
            from + pat.len(),
        ));
        find_behind(p, s, pat, from + 1);
    }
}

proof fn lines_behind(p: Seq<char>, s: Seq<char>, from: int)
    requires
        0 <= from,
    ensures
        lines_from(p + s, p.len() + from) == lines_from(s, from),
    decreases s.len() - from,
{
    if from < s.len() {
        find_behind(p, s, seq!['\n'], from);
        match find_from(s, seq!['\n'], from) {
            Some(i) => {
                find_is_first(s, seq!['\n'], from);
                assert((p + s).subrange(p.len() + from, p.len() + i) =~= s.subrange(from, i));
                lines_behind(p, s, i + 1);
            },
            None => {
                assert((p + s).skip(p.len() + from) =~= s.skip(from));
            },
        }
    }
}

/// A text is taken apart into lines at each line feed; a carriage return before it is no part of
/// the line.
pub proof fn lines_end_at_line_feeds(line: Seq<char>, rest: Seq<char>)
    requires
        forall|i: int| 0 <= i < line.len() ==> #[trigger] line[i] != '\n',
    ensures
        lines(line + seq!['\n'] + rest) == seq![without_cr(line)] + lines(rest),
        line.len() > 0 ==> lines(line) == seq![line],
        lines(Seq::<char>::empty()) == Seq::<Seq<char>>::empty(),
{
    let feed = seq!['\n'];
    let whole = line + feed + rest;
    let n = line.len() as int;
    find_is_first(whole, feed, 0);
    find_is_first(line, feed, 0);
    assert(whole.subrange(n, n + 1) =~= feed);
    assert(occurs_at(whole, feed, n));
    assert forall|i: int| 0 <= i < n implies !occurs_at(whole, feed, i) by {
        if occurs_at(whole, feed, i) {
            assert(whole.subrange(i, i + 1)[0] == line[i]);
        }
    }
    assert forall|i: int| 0 <= i implies !occurs_at(line, feed, i) by {
        if occurs_at(line, feed, i) {
            assert(line.subrange(i, i + 1)[0] == line[i]);
        }
    }
    assert(find_from(whole, feed, 0) == Some(n));
    assert(whole.subrange(0, n) =~= line);
    lines_behind(line + feed, rest, 0);
    assert(find_from(line, feed, 0) is None);
    assert(line.skip(0) =~= line);
}

// ─── Numbers and cuts ───────────────────────────────────────────────────────

/// A number is read back from its digits.
pub proof fn number_is_read_back(n: u64)
    ensures
        natural_of(decimal(n as nat)) == Some(n),
{
    decimal_is_read_back(n as nat);
    assert(is_digit(decimal(n as nat)[0]));
}

/// A text that is short enough stays whole; of another one a beginning stays, with a mark behind
/// it.
pub proof fn long_text_is_cut(s: Seq<char>, n: nat, mark: Seq<char>)
    ensures
        byte_len(s) <= n ==> shortened(s, n, mark) == s,
        byte_len(s) > n ==> exists|i: int|
            0 <= i < s.len() && shortened(s, n, mark) == #[trigger] s.take(i) + mark && byte_len(
                s.take(i),
            ) <= n && byte_len(s.take(i + 1)) > n,
{
    if byte_len(s) > n {
        prefix_within_is_longest(s, n);
        let i = prefix_within(s, n).len() as int;
        assert(s.take(s.len() as int) =~= s);
        assert(i < s.len());
        assert(shortened(s, n, mark) == s.take(i) + mark);
        assert(byte_len(s.take(i + 1)) > n);
    }
}

/// A change of case keeps every other character, and the length; each undoes the other on letters.
pub proof fn case_changes_letters_alone(s: Seq<char>, i: int)
    requires
        0 <= i < s.len(),
    ensures
        ascii_lowercase(s).len() == s.len(),
        ascii_uppercase(s).len() == s.len(),
        !('A' <= s[i] <= 'Z') ==> ascii_lowercase(s)[i] == s[i],
        !('a' <= s[i] <= 'z') ==> ascii_uppercase(s)[i] == s[i],
        'A' <= s[i] <= 'Z' ==> 'a' <= ascii_lowercase(s)[i] <= 'z' && ascii_uppercase(
            ascii_lowercase(s),
        )[i] == s[i],
        'a' <= s[i] <= 'z' ==> 'A' <= ascii_uppercase(s)[i] <= 'Z' && ascii_lowercase(
            ascii_uppercase(s),
        )[i] == s[i],
{
}

/// A text of one-byte characters can be cut anywhere, and so can one that is short enough to stay
/// whole; where a text can be cut, the part that stays has exactly the bytes that may stay.
pub proof fn text_can_be_cut(s: Seq<char>, n: nat)
    ensures
        byte_len(s) <= n ==> cuts_cleanly(s, n),
        all_ascii(s) ==> cuts_cleanly(s, n),
        cuts_cleanly(s, n) && byte_len(s) > n ==> byte_len(prefix_within(s, n)) == n,
{
    if all_ascii(s) && byte_len(s) > n {
        prefix_within_is_longest(s, n);
        let kept = prefix_within(s, n).len() as int;
        ascii_is_one_byte(s);
        ascii_is_one_byte(s.take(kept));
        if kept < n {
            ascii_is_one_byte(s.take(kept + 1));
            assert(byte_len(s.take(kept + 1)) > n);
        }
    }
}

/// Each character of an ASCII text takes one byte.
pub proof fn ascii_is_one_byte(s: Seq<char>)
    requires
        all_ascii(s),
    ensures
        byte_len(s) == s.len(),
    decreases s.len(),
{
    if s.len() > 0 {
        assert(s.last() as u32 <= 127);
        assert forall|i: int| 0 <= i < s.drop_last().len() implies (#[trigger] s.drop_last()[i]) as u32
            <= 127 by {
            assert(s.drop_last()[i] == s[i]);
        }
        ascii_is_one_byte(s.drop_last());
    }
}

} // verus!
