use jigolo::text::count_lines;
use jigolo::text::is_whitespace_char;
use jigolo::text::push_decimal;
use jigolo::text::trimmed;

#[test]
fn line_count_matches_str_lines() {
    for s in ["", "a", "a\n", "a\nb", "a\n\nb\n", "\n", "\n\n", "x\r\ny"] {
        assert_eq!(count_lines(s), s.lines().count(), "{s:?}");
    }
}

#[test]
fn trimmed_matches_str_trim() {
    for s in ["", "   ", " a b ", "\u{3000}x\u{85}", "\t\n path \r", "no-space"] {
        let chars: Vec<char> = s.chars().collect();
        assert_eq!(trimmed(&chars), s.trim(), "{s:?}");
    }
}

#[test]
fn whitespace_matches_std() {
    for c in ['\t', '\n', ' ', 'a', '\u{a0}', '\u{2000}', '\u{200b}', '\u{3000}', '\u{1680}', 'é'] {
        assert_eq!(is_whitespace_char(c), c.is_whitespace(), "{c:?}");
    }
}

#[test]
fn decimal_notation() {
    for n in [0usize, 7, 10, 42, 1000, 98765] {
        let mut s = String::from("n=");
        push_decimal(&mut s, n);
        assert_eq!(s, format!("n={n}"));
    }
}
