//! Text helpers shared by the library: character pushes, decimal numbers,
//! whitespace trimming and line counting.

use vstd::prelude::*;

verus! {

/// `String::push` from std: appends one character at the end of the string.
#[verifier::external_body]
pub fn push_char(s: &mut String, c: char)
    ensures
        final(s)@ == old(s)@.push(c),
{
    s.push(c);
}


/// Unicode `White_Space`: the characters that `char::is_whitespace` and
/// `str::trim` treat as whitespace.
pub open spec fn is_white_space(c: char) -> bool {
    let n = c as u32;
    ||| 0x09 <= n <= 0x0d
    ||| n == 0x20
    ||| n == 0x85
    ||| n == 0xa0
    ||| n == 0x1680
    ||| 0x2000 <= n <= 0x200a
    ||| n == 0x2028
    ||| n == 0x2029
    ||| n == 0x202f
    ||| n == 0x205f
    ||| n == 0x3000
}

/// Whether `c` is Unicode whitespace.
pub fn is_whitespace_char(c: char) -> (r: bool)
    ensures
        r == is_white_space(c),
{
    let n = c as u32;
    (0x09 <= n && n <= 0x0d) || n == 0x20 || n == 0x85 || n == 0xa0 || n == 0x1680 || (0x2000
        <= n && n <= 0x200a) || n == 0x2028 || n == 0x2029 || n == 0x202f || n == 0x205f || n
        == 0x3000
}

/// `s` without its leading whitespace.
pub open spec fn trim_start_chars(s: Seq<char>) -> Seq<char>
    decreases s.len(),
{
    if s.len() > 0 && is_white_space(s[0]) {
        trim_start_chars(s.drop_first())
    } else {
        s
    }
}

/// `s` without its trailing whitespace.
pub open spec fn trim_end_chars(s: Seq<char>) -> Seq<char>
    decreases s.len(),
{
    if s.len() > 0 && is_white_space(s.last()) {
        trim_end_chars(s.drop_last())
    } else {
        s
    }
}

/// `s` without leading and trailing whitespace, as `str::trim` gives it.
pub open spec fn trim_chars(s: Seq<char>) -> Seq<char> {
    trim_end_chars(trim_start_chars(s))
}

/// The characters of `v` with leading and trailing whitespace removed.
pub fn trimmed(v: &Vec<char>) -> (r: String)
    ensures
        r@ == trim_chars(v@),
{
    let len = v.len();
    let mut start: usize = 0;
    assert(v@.subrange(0, len as int) =~= v@);
    while start < len && is_whitespace_char(v[start])
        invariant
            len == v@.len(),
            start <= len,
            trim_start_chars(v@) == trim_start_chars(v@.subrange(start as int, len as int)),
        decreases len - start,
    {
        proof {
            assert(v@.subrange(start as int, len as int).drop_first() =~= v@.subrange(
                start + 1,
                len as int,
            ));
        }
        start = start + 1;
    }
    let ghost tail = v@.subrange(start as int, len as int);
    assert(trim_start_chars(tail) == tail);
    let mut end: usize = len;
    while end > start && is_whitespace_char(v[end - 1])
        invariant
            len == v@.len(),
            start <= end <= len,
            tail == v@.subrange(start as int, len as int),
            trim_end_chars(tail) == trim_end_chars(v@.subrange(start as int, end as int)),
        decreases end - start,
    {
        proof {
            assert(v@.subrange(start as int, end as int).drop_last() =~= v@.subrange(
                start as int,
                end - 1,
            ));
        }
        end = end - 1;
    }
    let mut out = String::new();
    let mut k: usize = start;
    while k < end
        invariant
            len == v@.len(),
            start <= k <= end <= len,
            out@ == v@.subrange(start as int, k as int),
        decreases end - k,
    {
        push_char(&mut out, v[k]);
        proof {
            assert(v@.subrange(start as int, k + 1) =~= v@.subrange(start as int, k as int).push(
                v@[k as int],
            ));
        }
        k = k + 1;
    }
    proof {
        let mid = v@.subrange(start as int, end as int);
        assert(trim_end_chars(mid) == mid);
    }
    out
}

/// The decimal digit `d`.
pub open spec fn digit_char(d: nat) -> char {
    if d == 0 {
        '0'
    } else if d == 1 {
        '1'
    } else if d == 2 {
        '2'
    } else if d == 3 {
        '3'
    } else if d == 4 {
        '4'
    } else if d == 5 {
        '5'
    } else if d == 6 {
        '6'
    } else if d == 7 {
        '7'
    } else if d == 8 {
        '8'
    } else {
        '9'
    }
}

/// The decimal notation of `n`, without leading zeros.
pub open spec fn decimal(n: nat) -> Seq<char>
    decreases n,
{
    if n < 10 {
        seq![digit_char(n)]
    } else {
        decimal(n / 10).push(digit_char(n % 10))
    }
}

fn digit(d: usize) -> (c: char)
    requires
        d < 10,
    ensures
        c == digit_char(d as nat),
{
    match d {
        0 => '0',
        1 => '1',
        2 => '2',
        3 => '3',
        4 => '4',
        5 => '5',
        6 => '6',
        7 => '7',
        8 => '8',
        _ => '9',
    }
}

/// Appends the decimal notation of `n` to `s`.
pub fn push_decimal(s: &mut String, n: usize)
    ensures
        final(s)@ == old(s)@ + decimal(n as nat),
    decreases n,
{
    if n >= 10 {
        push_decimal(s, n / 10);
    }
    push_char(s, digit(n % 10));
}

/// The number of `'\n'` characters in `s`.
pub open spec fn newline_count(s: Seq<char>) -> nat
    decreases s.len(),
{
    if s.len() == 0 {
        0
    } else {
        newline_count(s.drop_last()) + if s.last() == '\n' {
            1nat
        } else {
            0nat
        }
    }
}

/// The number of lines that `str::lines` yields for `s`: a final line ending
/// opens no further line.
pub open spec fn line_count(s: Seq<char>) -> nat {
    if s.len() == 0 {
        0
    } else if s.last() == '\n' {
        newline_count(s)
    } else {
        newline_count(s) + 1
    }
}

/// The number of lines in `s`, as `s.lines().count()` gives it.
pub fn count_lines(s: &str) -> (r: usize)
    ensures
        r == line_count(s@),
{
    broadcast use vstd::string::group_string_axioms;
    let len = s.unicode_len();
    let mut newlines: usize = 0;
    let mut last_is_newline = false;
    for c in it: s.chars()
        invariant
            len == s@.len(),
            it.seq() == s@,
            newlines == newline_count(s@.take(it.index() as int)),
            newlines <= it.index(),
            it.index() > 0 && !last_is_newline ==> newlines < it.index(),
            it.index() > 0 ==> last_is_newline == (s@[it.index() - 1] == '\n'),
    {
        proof {
            assert(s@.take(it.index() + 1).drop_last() =~= s@.take(it.index() as int));
        }
        if c == '\n' {
            newlines = newlines + 1;
        }
        last_is_newline = c == '\n';
    }
    proof {
        assert(s@.take(len as int) =~= s@);
    }
    if len == 0 {
        0
    } else if last_is_newline {
        newlines
    } else {
        newlines + 1
    }
}

/// Trimming the start drops exactly the leading whitespace: what is left
/// starts at some position `a` before which every character is whitespace,
/// and is empty or starts with a character that is not.
pub proof fn lemma_trim_start_drops_leading_whitespace(s: Seq<char>) -> (a: int)
    ensures
        0 <= a <= s.len(),
        trim_start_chars(s) == s.subrange(a, s.len() as int),
        forall|i: int| 0 <= i < a ==> is_white_space(#[trigger] s[i]),
        a < s.len() ==> !is_white_space(s[a]),
    decreases s.len(),
{
    if s.len() > 0 && is_white_space(s[0]) {
        let a0 = lemma_trim_start_drops_leading_whitespace(s.drop_first());
        assert(s.drop_first().subrange(a0, s.drop_first().len() as int) =~= s.subrange(
            a0 + 1,
            s.len() as int,
        ));
        assert forall|i: int| 0 <= i < a0 + 1 implies is_white_space(#[trigger] s[i]) by {
            if i > 0 {
                assert(s[i] == s.drop_first()[i - 1]);
            }
        }
        a0 + 1
    } else {
        assert(s.subrange(0, s.len() as int) =~= s);
        0
    }
}

/// Trimming the end drops exactly the trailing whitespace: what is left ends
/// at some position `b` from which on every character is whitespace, and is
/// empty or ends with a character that is not.
pub proof fn lemma_trim_end_drops_trailing_whitespace(s: Seq<char>) -> (b: int)
    ensures
        0 <= b <= s.len(),
        trim_end_chars(s) == s.subrange(0, b),
        forall|i: int| b <= i < s.len() ==> is_white_space(#[trigger] s[i]),
        b > 0 ==> !is_white_space(s[b - 1]),
    decreases s.len(),
{
    if s.len() > 0 && is_white_space(s.last()) {
        let b0 = lemma_trim_end_drops_trailing_whitespace(s.drop_last());
        assert(s.drop_last().subrange(0, b0) =~= s.subrange(0, b0));
        assert forall|i: int| b0 <= i < s.len() implies is_white_space(#[trigger] s[i]) by {
            if i < s.len() - 1 {
                assert(s[i] == s.drop_last()[i]);
            }
        }
        b0
    } else {
        assert(s.subrange(0, s.len() as int) =~= s);
        s.len() as int
    }
}

/// Trimming keeps one stretch of `s` and drops only whitespace around it:
/// the result is `s[a..b]`, everything outside is whitespace, and the result
/// neither starts nor ends with whitespace.
pub proof fn lemma_trim_keeps_inner_text(s: Seq<char>)
    ensures
        exists|a: int, b: int|
            0 <= a <= b <= s.len() && trim_chars(s) == s.subrange(a, b) && (forall|i: int|
                0 <= i < a ==> is_white_space(#[trigger] s[i])) && (forall|i: int|
                b <= i < s.len() ==> is_white_space(#[trigger] s[i])) && (a < b ==> !is_white_space(
                s[a],
            ) && !is_white_space(s[b - 1])),
{
    let a = lemma_trim_start_drops_leading_whitespace(s);
    let t = s.subrange(a, s.len() as int);
    let b0 = lemma_trim_end_drops_trailing_whitespace(t);
    let b = a + b0;
    assert(t.subrange(0, b0) =~= s.subrange(a, b));
    assert forall|i: int| b <= i < s.len() implies is_white_space(#[trigger] s[i]) by {
        assert(s[i] == t[i - a]);
    }
    if a < b {
        assert(s[b - 1] == t[b0 - 1]);
        assert(s[a] == t[0]);
    }
}

/// The value of the decimal digit `c`.
pub open spec fn digit_value(c: char) -> int {
    c as int - '0' as int
}

/// Whether `c` is a decimal digit.
pub open spec fn is_digit(c: char) -> bool {
    '0' <= c <= '9'
}

/// The number that the digits `s` write in decimal.
pub open spec fn decimal_value(s: Seq<char>) -> int
    decreases s.len(),
{
    if s.len() == 0 {
        0
    } else {
        decimal_value(s.drop_last()) * 10 + digit_value(s.last())
    }
}

proof fn lemma_digit_char_digit(d: nat)
    requires
        d < 10,
    ensures
        is_digit(digit_char(d)),
        digit_value(digit_char(d)) == d,
        (digit_char(d) == '0') == (d == 0),
{
}

/// `decimal(n)` writes `n`: it is made of digits only, reads back as `n`,
/// and has no leading zero unless it is `"0"`.
pub proof fn lemma_decimal_writes_number(n: nat)
    ensures
        decimal(n).len() > 0,
        forall|i: int| 0 <= i < decimal(n).len() ==> is_digit(#[trigger] decimal(n)[i]),
        decimal_value(decimal(n)) == n,
        decimal(n)[0] == '0' ==> n == 0,
    decreases n,
{
    if n < 10 {
        lemma_digit_char_digit(n);
        let one = seq![digit_char(n)];
        assert(one.drop_last() =~= Seq::<char>::empty());
        assert(decimal_value(one.drop_last()) == 0);
        assert(one.last() == digit_char(n));
        assert(decimal_value(one) == decimal_value(one.drop_last()) * 10 + digit_value(one.last()));
    } else {
        lemma_decimal_writes_number(n / 10);
        lemma_digit_char_digit(n % 10);
        let d = decimal(n / 10);
        assert(d.push(digit_char(n % 10)).drop_last() =~= d);
        assert(n == (n / 10) * 10 + n % 10) by (nonlinear_arith);
        let full = d.push(digit_char(n % 10));
        assert(full.last() == digit_char(n % 10));
        assert(decimal_value(full) == decimal_value(full.drop_last()) * 10 + digit_value(full.last()));
        assert forall|i: int| 0 <= i < decimal(n).len() implies is_digit(#[trigger] decimal(n)[i]) by {
            if i < d.len() {
                assert(decimal(n)[i] == d[i]);
            }
        }
        assert(decimal(n)[0] == d[0]);
    }
}

} // verus!
