use nasiko_agents::coding::quoting::shell_quote;
use nasiko_agents::coding::sandbox::truncate;
use nasiko_agents::text::case::ascii_upper;
use nasiko_agents::text::lines::{blank, first_line_of, lines_of, trim_text, white, words_of};
use nasiko_agents::text::number::parse_natural;
use nasiko_agents::text::search::{
    contains_text, count_text_matches, extract_between, find_chars, replace_first_text,
    replace_text, split_text, starts_with_text,
};
use nasiko_agents::text::url::urlencode;
use nasiko_agents::text::width::{byte_count, can_cut, longer_than, safe_truncate, shorten};
use nasiko_agents::text::{
    count_text, decimal_text, is_text, join_texts, opt_text, pad_zeros, same, signed_text, slice,
    wide_text,
};

const SAMPLES: [&str; 14] = [
    "",
    " ",
    "a",
    "abc",
    "aaa",
    "aaaa",
    "a,b,,c,",
    ",,",
    "line one\nline two\r\nline three\n",
    "\n\n",
    "no end\r",
    "grüße aus köln — ok",
    "  \t padded\u{3000}\n",
    "日本語のテキスト",
];

const PATTERNS: [&str; 8] = ["a", "aa", ",", "\n", "ß", " ", "本語", "abcd"];

#[test]
fn white_space_is_that_of_std() {
    let mut n: u32 = 0;
    while n <= 0x10ffff {
        if let Some(c) = char::from_u32(n) {
            assert_eq!(white(c), c.is_whitespace(), "{n:x}");
        }
        n += 1;
    }
}

#[test]
fn lines_and_words_are_those_of_std() {
    for s in SAMPLES {
        let lines: Vec<String> = s.lines().map(|l| l.to_string()).collect();
        assert_eq!(lines_of(s), lines, "{s:?}");
        let words: Vec<String> = s.split_whitespace().map(|w| w.to_string()).collect();
        assert_eq!(words_of(s), words, "{s:?}");
        assert_eq!(trim_text(s), s.trim(), "{s:?}");
        assert_eq!(blank(s), s.trim().is_empty(), "{s:?}");
        assert_eq!(first_line_of(s), s.lines().next().unwrap_or(""), "{s:?}");
    }
}

#[test]
fn searching_is_that_of_std() {
    for s in SAMPLES {
        for p in PATTERNS {
            let split: Vec<String> = s.split(p).map(|x| x.to_string()).collect();
            assert_eq!(split_text(s, p), split, "{s:?} {p:?}");
            assert_eq!(replace_text(s, p, "-+-"), s.replace(p, "-+-"), "{s:?} {p:?}");
            assert_eq!(replace_first_text(s, p, "Z"), s.replacen(p, "Z", 1), "{s:?} {p:?}");
            assert_eq!(contains_text(s, p), s.contains(p), "{s:?} {p:?}");
            assert_eq!(starts_with_text(s, p), s.starts_with(p), "{s:?} {p:?}");
            assert_eq!(count_text_matches(s, p), s.matches(p).count() as u128, "{s:?} {p:?}");
        }
        assert_eq!(count_text_matches(s, ""), s.matches("").count() as u128, "{s:?}");
        assert_eq!(replace_first_text(s, "", "Z"), s.replacen("", "Z", 1), "{s:?}");
        assert!(contains_text(s, ""));
    }
}

#[test]
fn first_place_is_found() {
    let s: Vec<char> = "abcabc".chars().collect();
    let p: Vec<char> = "bc".chars().collect();
    assert_eq!(find_chars(&s, &p, 0), Some(1));
    assert_eq!(find_chars(&s, &p, 2), Some(4));
    assert_eq!(find_chars(&s, &p, 5), None);
    assert_eq!(find_chars(&s, &p, 6), None);
}

#[test]
fn text_between_markers() {
    assert_eq!(extract_between("a<b>c</b>", "<b>", "</b>"), Some("c".to_string()));
    assert_eq!(extract_between("a<b>c", "<b>", "</b>"), None);
    assert_eq!(extract_between("c</b>", "<b>", "</b>"), None);
    assert_eq!(extract_between("</b><b></b>", "<b>", "</b>"), Some(String::new()));
    assert_eq!(extract_between("x=\"1\" y=\"2\"", "y=\"", "\""), Some("2".to_string()));
}

#[test]
fn pieces_rejoin() {
    for s in SAMPLES {
        for p in PATTERNS {
            assert_eq!(join_texts(&split_text(s, p), p), s);
        }
    }
}

#[test]
fn widths_are_bytes() {
    for s in SAMPLES {
        assert_eq!(byte_count(s), s.len());
        for n in 0..s.len() + 2 {
            assert_eq!(longer_than(s, n), s.len() > n);
            let mut end = n.min(s.len());
            while !s.is_char_boundary(end) {
                end -= 1;
            }
            assert_eq!(safe_truncate(s, n), &s[..end]);
            assert_eq!(can_cut(s, n), s.len() <= n || s.is_char_boundary(n));
            if can_cut(s, n) {
                let expected =
                    if s.len() > n { format!("{}...", &s[..n]) } else { s.to_string() };
                assert_eq!(shorten(s, n, "..."), expected);
            }
        }
    }
}

#[test]
fn truncation_stops_between_characters() {
    assert_eq!(safe_truncate("aß", 2), "a");
    assert_eq!(safe_truncate("aß", 3), "aß");
    assert_eq!(safe_truncate("ß", 0), "");
    assert_eq!(safe_truncate("ß", 1), "");
}

#[test]
fn long_output_is_cut_and_marked() {
    let short = "x".repeat(64 * 1024);
    assert_eq!(truncate(short.clone()), short);
    let long = format!("{short}y");
    let cut = truncate(long);
    assert!(cut.starts_with(&short));
    assert_eq!(&cut[64 * 1024..], "\n…[output truncated]");
    let mut wide = "x".repeat(64 * 1024 - 1);
    wide.push_str("ßz");
    let cut = truncate(wide);
    assert_eq!(&cut[..64 * 1024 - 1], &short[1..]);
    assert_eq!(&cut[64 * 1024 - 1..], "\n…[output truncated]");
}

#[test]
fn numbers_are_written_in_decimal() {
    for n in [0, 1, 9, 10, 99, 100, 12345, u64::MAX] {
        assert_eq!(decimal_text(n), n.to_string());
    }
    assert_eq!(wide_text(u128::MAX), u128::MAX.to_string());
    assert_eq!(count_text(usize::MAX), usize::MAX.to_string());
    for n in [0, 7, -1, -10, i32::MAX, i32::MIN] {
        assert_eq!(signed_text(n), n.to_string());
    }
    assert_eq!(pad_zeros("7", 3), "007");
    assert_eq!(pad_zeros("1234", 3), "1234");
}

#[test]
fn numbers_are_read_as_std_reads_them() {
    let texts = [
        "", "0", "7", "007", "+7", "+", "-7", "-0", "12a", " 1", "1 ", "18446744073709551615",
        "18446744073709551616", "99999999999999999999999", "+18446744073709551615", "٣",
    ];
    for s in texts {
        assert_eq!(parse_natural(s), s.parse::<u64>().ok(), "{s:?}");
    }
}

#[test]
fn decimal_notation_is_read_back() {
    for n in [0, 1, 10, 4711, u64::MAX] {
        assert_eq!(parse_natural(&decimal_text(n)), Some(n));
    }
}

#[test]
fn url_encoding() {
    assert_eq!(urlencode("a b&c=d/e"), "a+b%26c%3Dd%2Fe");
    assert_eq!(urlencode("AZaz09-_.~"), "AZaz09-_.~");
    assert_eq!(urlencode("ß"), "%C3%9F");
    assert_eq!(urlencode("€ 😀"), "%E2%82%AC+%F0%9F%98%80");
    assert_eq!(urlencode("\u{1}"), "%01");
    assert_eq!(urlencode(""), "");
}

/// The text that an encoded one stands for.
fn decoded(s: &str) -> String {
    let bytes = s.as_bytes();
    let mut out: Vec<u8> = Vec::new();
    let mut i: usize = 0;
    while i < bytes.len() {
        match bytes[i] {
            b'+' => out.push(b' '),
            b'%' => {
                out.push(u8::from_str_radix(&s[i + 1..i + 3], 16).unwrap());
                i += 2;
            }
            b => out.push(b),
        }
        i += 1;
    }
    String::from_utf8(out).unwrap()
}

#[test]
fn encoded_texts_are_decoded_back() {
    for s in SAMPLES {
        assert_eq!(decoded(&urlencode(s)), s);
        for t in ["a+b", "100%", "", "ß %20", "😀"] {
            assert_eq!(decoded(&urlencode(t)), t);
            assert_eq!(urlencode(&format!("{s}{t}")), urlencode(s) + &urlencode(t));
        }
    }
}

#[test]
fn shell_quoting() {
    assert_eq!(shell_quote("plain"), "'plain'");
    assert_eq!(shell_quote("it's"), "'it'\\''s'");
    assert_eq!(shell_quote(""), "''");
    assert_eq!(shell_quote("$(x) `y` \"z\""), "'$(x) `y` \"z\"'");
}

#[test]
fn quoted_text_is_one_shell_word() {
    for s in ["", "a b", "'", "''", "a'b'c", "don't; rm -rf /"] {
        let quoted: Vec<char> = shell_quote(s).chars().collect();
        let mut read = String::new();
        let mut inside = false;
        let mut i = 0;
        while i < quoted.len() {
            if quoted[i] == '\'' {
                inside = !inside;
            } else if inside {
                read.push(quoted[i]);
            } else {
                assert_eq!(quoted[i], '\\');
                i += 1;
                read.push(quoted[i]);
            }
            i += 1;
        }
        assert!(!inside);
        assert_eq!(read, s);
    }
}

#[test]
fn small_helpers() {
    assert!(same("ab", "ab"));
    assert!(!same("ab", "abc"));
    assert!(!same("ab", "ac"));
    assert!(is_text(Some("x"), "x"));
    assert!(!is_text(None, ""));
    assert_eq!(opt_text(Some("x")), Some("x".to_string()));
    assert_eq!(opt_text(None), None);
    assert_eq!(ascii_upper("aZ9ß"), "AZ9ß");
    let c: Vec<char> = "hello".chars().collect();
    assert_eq!(slice(&c, 1, 3), "el");
    assert_eq!(join_texts(&vec![], ","), "");
    assert_eq!(join_texts(&vec!["a".to_string()], ","), "a");
    assert_eq!(join_texts(&vec!["a".to_string(), "b".to_string()], ", "), "a, b");
}
