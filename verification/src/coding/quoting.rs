//! Texts as words of a shell command.

use vstd::prelude::*;

use crate::text::search::{find_from, find_is_first, occurs_at, replace, replace_from, replace_text};
use crate::text::text;

verus! {

/// `s` in single quotes, with each single quote in it written as `'\''`.
pub open spec fn quoted(s: Seq<char>) -> Seq<char> {
    "'"@ + replace(s, "'"@, "'\\''"@) + "'"@
}

/// Wraps a text in single quotes, for use as one word of a command for `sh -c`.
pub fn shell_quote(s: &str) -> (r: String)
    ensures
        r@ == quoted(s@),
{
    proof {
        reveal_strlit("'");
    }
    let mut out = text("'");
    let inner = replace_text(s, "'", "'\\''");
    out.append(inner.as_str());
    out.append("'");
    out
}

/// The word that a shell reads from `s`: between single quotes every character stands for itself;
/// outside them a backslash makes the next character stand for itself, and a character that could
/// mean anything to the shell ends the reading with none. None too where a quote stays open.
pub open spec fn word_read(s: Seq<char>, inside: bool) -> Option<Seq<char>>
    decreases s.len(),
{
    if s.len() == 0 {
        if inside {
            None
        } else {
            Some(Seq::empty())
        }
    } else if s[0] == '\'' {
        word_read(s.drop_first(), !inside)
    } else if inside {
        led_by(s[0], word_read(s.drop_first(), inside))
    } else if s[0] == '\\' && s.len() > 1 {
        led_by(s[1], word_read(s.skip(2), inside))
    } else {
        None
    }
}

/// A word with one more character in front.
pub open spec fn led_by(c: char, word: Option<Seq<char>>) -> Option<Seq<char>> {
    match word {
        Some(w) => Some(seq![c] + w),
        None => None,
    }
}

/// A quoted text is read back by a shell as that text, whatever it holds.
pub proof fn quoting_keeps_the_text(s: Seq<char>)
    ensures
        word_read(quoted(s), false) == Some(s),
{
    reveal_strlit("'");
    reveal_strlit("'\\''");
    assert("'"@ =~= seq!['\'']);
    assert("'\\''"@ =~= seq!['\'', '\\', '\'', '\'']);
    quoted_rest_is_read(s, 0);
    let q = quoted(s);
    assert(q.drop_first() =~= replace_from(s, seq!['\''], seq!['\'', '\\', '\'', '\''], 0) + seq![
        '\'',
    ]);
    assert(s.skip(0) =~= s);
}

/// Replacing goes character by character where a single one is replaced.
proof fn replace_steps(s: Seq<char>, c: char, with: Seq<char>, from: int)
    requires
        0 <= from < s.len(),
    ensures
        replace_from(s, seq![c], with, from) == (if s[from] == c {
            with
        } else {
            seq![s[from]]
        }) + replace_from(s, seq![c], with, from + 1),
{
    let pat = seq![c];
    find_is_first(s, pat, from);
    find_is_first(s, pat, from + 1);
    assert(s.subrange(from, from + 1) =~= seq![s[from]]);
    assert(seq![s[from]][0] == s[from]);
    assert(pat[0] == c);
    assert(occurs_at(s, pat, from) <==> s[from] == c);
    if s[from] == c {
        assert(find_from(s, pat, from) == Some(from));
        assert(replace_from(s, pat, with, from) =~= with + replace_from(s, pat, with, from + 1));
    } else {
        assert(find_from(s, pat, from) == find_from(s, pat, from + 1));
        match find_from(s, pat, from) {
            Some(i) => {
                assert(s.subrange(from, i) =~= seq![s[from]] + s.subrange(from + 1, i));
                assert(replace_from(s, pat, with, from) =~= seq![s[from]] + replace_from(
                    s,
                    pat,
                    with,
                    from + 1,
                ));
            },
            None => {
                assert(s.skip(from) =~= seq![s[from]] + s.skip(from + 1));
            },
        }
    }
}

proof fn quoted_rest_is_read(s: Seq<char>, from: int)
    requires
        0 <= from <= s.len(),
    ensures
        word_read(
            replace_from(s, seq!['\''], seq!['\'', '\\', '\'', '\''], from) + seq!['\''],
            true,
        ) == Some(s.skip(from)),
    decreases s.len() - from,
{
    let with = seq!['\'', '\\', '\'', '\''];
    let all = replace_from(s, seq!['\''], with, from) + seq!['\''];
    if from == s.len() {
        find_is_first(s, seq!['\''], from);
        assert(all =~= seq!['\'']);
        assert(all.drop_first() =~= Seq::empty());
        assert(word_read(all.drop_first(), false) == Some(Seq::<char>::empty()));
        assert(s.skip(from) =~= Seq::empty());
    } else {
        quoted_rest_is_read(s, from + 1);
        replace_steps(s, '\'', with, from);
        let rest = replace_from(s, seq!['\''], with, from + 1) + seq!['\''];
        assert(seq![s[from]] + s.skip(from + 1) =~= s.skip(from));
        if s[from] == '\'' {
            assert(all =~= with + rest);
            let after_close = all.drop_first();
            assert(after_close[0] == '\\' && after_close[1] == '\'');
            let reopened = after_close.skip(2);
            assert(reopened =~= seq!['\''] + rest);
            assert(reopened.drop_first() =~= rest);
            assert(word_read(reopened, false) == word_read(rest, true));
            assert(word_read(after_close, false) == led_by('\'', word_read(reopened, false)));
            assert(word_read(all, true) == word_read(after_close, false));
        } else {
            assert(all =~= seq![s[from]] + rest);
            assert(all.drop_first() =~= rest);
        }
    }
}

} // verus!
