//! Text helpers: trailing-slash stripping of base URLs.

use vstd::prelude::*;

verus! {

/// `s` with every trailing `'/'` removed.
pub open spec fn trim_trailing_slashes(s: Seq<char>) -> Seq<char>
    decreases s.len(),
{
    if s.len() > 0 && s.last() == '/' {
        trim_trailing_slashes(s.drop_last())
    } else {
        s
    }
}

/// Returns `url` without its trailing slashes, so that paths can be appended.
pub fn strip_trailing_slashes(url: &str) -> (res: String)
    ensures
        res@ == trim_trailing_slashes(url@),
{
    let n = url.unicode_len();
    let mut end: usize = n;
    assert(url@.subrange(0, n as int) =~= url@);
    while end > 0 && url.get_char(end - 1) == '/'
        invariant
            n == url@.len(),
            end <= n,
            trim_trailing_slashes(url@) == trim_trailing_slashes(url@.subrange(0, end as int)),
        decreases end,
    {
        assert(url@.subrange(0, end as int).drop_last() =~= url@.subrange(0, end - 1));
        end = end - 1;
    }
    let kept = url.substring_char(0, end);
    String::from_str(kept)
}

} // verus!

verus! {

/// Whether `c` has the Unicode `White_Space` property, which is what
/// `str::trim` strips.
pub open spec fn is_white_space(c: char) -> bool {
    let v = c as u32;
    ||| 0x9 <= v <= 0xD
    ||| v == 0x20
    ||| v == 0x85
    ||| v == 0xA0
    ||| v == 0x1680
    ||| 0x2000 <= v <= 0x200A
    ||| v == 0x2028
    ||| v == 0x2029
    ||| v == 0x202F
    ||| v == 0x205F
    ||| v == 0x3000
}

/// `s` without its leading white space.
pub open spec fn trim_start_ws(s: Seq<char>) -> Seq<char>
    decreases s.len(),
{
    if s.len() > 0 && is_white_space(s[0]) {
        trim_start_ws(s.drop_first())
    } else {
        s
    }
}

/// `s` without its trailing white space.
pub open spec fn trim_end_ws(s: Seq<char>) -> Seq<char>
    decreases s.len(),
{
    if s.len() > 0 && is_white_space(s.last()) {
        trim_end_ws(s.drop_last())
    } else {
        s
    }
}

/// `s` without leading and trailing white space.
pub open spec fn trim_ws(s: Seq<char>) -> Seq<char> {
    trim_end_ws(trim_start_ws(s))
}

/// Whether `c` is white space in the sense of `is_white_space`.
pub fn char_is_white_space(c: char) -> (res: bool)
    ensures
        res == is_white_space(c),
{
    let v = c as u32;
    (0x9 <= v && v <= 0xD) || v == 0x20 || v == 0x85 || v == 0xA0 || v == 0x1680 || (0x2000 <= v
        && v <= 0x200A) || v == 0x2028 || v == 0x2029 || v == 0x202F || v == 0x205F || v == 0x3000
}

/// Returns `s` with leading and trailing white space removed.
pub fn trim_whitespace(s: &str) -> (res: &str)
    ensures
        res@ == trim_ws(s@),
{
    let n = s.unicode_len();
    let mut start: usize = 0;
    assert(s@.subrange(0, n as int) =~= s@);
    while start < n && char_is_white_space(s.get_char(start))
        invariant
            n == s@.len(),
            start <= n,
            trim_start_ws(s@) == trim_start_ws(s@.subrange(start as int, n as int)),
        decreases n - start,
    {
        assert(s@.subrange(start as int, n as int).drop_first() =~= s@.subrange(
            start + 1,
            n as int,
        ));
        start = start + 1;
    }
    let mut end: usize = n;
    assert(trim_start_ws(s@) == s@.subrange(start as int, n as int));
    while end > start && char_is_white_space(s.get_char(end - 1))
        invariant
            n == s@.len(),
            start <= end <= n,
            trim_ws(s@) == trim_end_ws(s@.subrange(start as int, end as int)),
        decreases end,
    {
        assert(s@.subrange(start as int, end as int).drop_last() =~= s@.subrange(
            start as int,
            end - 1,
        ));
        end = end - 1;
    }
    s.substring_char(start, end)
}

/// Character-wise equality of two string slices.
pub fn str_equal(a: &str, b: &str) -> (res: bool)
    ensures
        res == (a@ == b@),
{
    let n = a.unicode_len();
    let m = b.unicode_len();
    if n != m {
        return false;
    }
    let mut i: usize = 0;
    while i < n
        invariant
            n == a@.len(),
            n == b@.len(),
            i <= n,
            forall|j: int| 0 <= j < i ==> a@[j] == b@[j],
        decreases n - i,
    {
        if a.get_char(i) != b.get_char(i) {
            return false;
        }
        i = i + 1;
    }
    assert(a@ =~= b@);
    true
}

/// The ASCII digit for `d`, for `0 <= d <= 9`.
pub open spec fn digit_char(d: int) -> char {
    if d == 0 {
        '0'
    } else if d == 1 {
        '1'
    } else if d == 2 {
        '2'
    } else if d == 3 {
        '3'
    } else if d == 4 {
        '4'
    } else if d == 5 {
        '5'
    } else if d == 6 {
        '6'
    } else if d == 7 {
        '7'
    } else if d == 8 {
        '8'
    } else {
        '9'
    }
}

/// Whether `c` is one of the ASCII digits `0` to `9`.
pub open spec fn is_digit(c: char) -> bool {
    '0' <= c <= '9'
}

/// The value of the ASCII digit `c`.
pub open spec fn digit_value(c: char) -> int {
    c as int - '0' as int
}

/// The decimal representation of `n`, most significant digit first, without
/// leading zeros.
pub open spec fn decimal(n: nat) -> Seq<char>
    decreases n,
{
    if n < 10 {
        seq![digit_char(n as int)]
    } else {
        decimal(n / 10).push(digit_char((n % 10) as int))
    }
}

/// The decimal representation of the signed integer `n`, with a leading `-`
/// for negative values.
pub open spec fn signed_decimal(n: int) -> Seq<char> {
    if n < 0 {
        seq!['-'] + decimal((-n) as nat)
    } else {
        decimal(n as nat)
    }
}

/// The value of a sequence of decimal digits.
pub open spec fn digits_value(s: Seq<char>) -> int
    decreases s.len(),
{
    if s.len() == 0 {
        0
    } else {
        digits_value(s.drop_last()) * 10 + digit_value(s.last())
    }
}

/// Whether every character of `s` is an ASCII digit.
pub open spec fn all_digits(s: Seq<char>) -> bool {
    forall|i: int| 0 <= i < s.len() ==> is_digit(#[trigger] s[i])
}

/// What parsing `s` as a `u16` gives, as `str::parse::<u16>` documents it: an
/// optional `+` followed by at least one ASCII digit, whose value fits.
pub open spec fn parse_u16_spec(s: Seq<char>) -> Option<u16> {
    let digits = if s.len() > 0 && s[0] == '+' {
        s.drop_first()
    } else {
        s
    };
    if digits.len() > 0 && all_digits(digits) && digits_value(digits) <= u16::MAX {
        Some(digits_value(digits) as u16)
    } else {
        None
    }
}

fn digit_str(d: u64) -> (res: &'static str)
    requires
        d < 10,
    ensures
        res@ == seq![digit_char(d as int)],
{
    proof {
        reveal_strlit("0");
        reveal_strlit("1");
        reveal_strlit("2");
        reveal_strlit("3");
        reveal_strlit("4");
        reveal_strlit("5");
        reveal_strlit("6");
        reveal_strlit("7");
        reveal_strlit("8");
        reveal_strlit("9");
    }
    if d == 0 {
        "0"
    } else if d == 1 {
        "1"
    } else if d == 2 {
        "2"
    } else if d == 3 {
        "3"
    } else if d == 4 {
        "4"
    } else if d == 5 {
        "5"
    } else if d == 6 {
        "6"
    } else if d == 7 {
        "7"
    } else if d == 8 {
        "8"
    } else {
        "9"
    }
}

/// Appends the decimal representation of `n` to `out`.
pub fn append_decimal(out: &mut String, n: u64)
    ensures
        final(out)@ == old(out)@ + decimal(n as nat),
    decreases n,
{
    if n >= 10 {
        append_decimal(out, n / 10);
    }
    let ghost before = out@;
    out.append(digit_str(n % 10));
    proof {
        if n >= 10 {
            assert(out@ =~= old(out)@ + decimal(n as nat));
        } else {
            assert(out@ =~= old(out)@ + decimal(n as nat));
        }
    }
}

/// The decimal representation of `n`.
pub fn u64_to_decimal(n: u64) -> (res: String)
    ensures
        res@ == decimal(n as nat),
{
    let mut out = String::new();
    append_decimal(&mut out, n);
    assert(out@ =~= decimal(n as nat));
    out
}

/// The decimal representation of `n`, with a leading `-` when negative.
pub fn i64_to_decimal(n: i64) -> (res: String)
    ensures
        res@ == signed_decimal(n as int),
{
    if n < 0 {
        let magnitude: u64 = (-(n + 1)) as u64 + 1;
        let mut out = String::from_str("-");
        proof {
            reveal_strlit("-");
        }
        append_decimal(&mut out, magnitude);
        out
    } else {
        u64_to_decimal(n as u64)
    }
}

fn char_digit(c: char) -> (res: Option<u32>)
    ensures
        res is Some <==> is_digit(c),
        res matches Some(d) ==> d == digit_value(c) && d < 10,
{
    if '0' <= c && c <= '9' {
        Some((c as u32) - ('0' as u32))
    } else {
        None
    }
}

/// Parses `s` as a `u16` the way `str::parse::<u16>` does.
pub fn parse_u16(s: &str) -> (res: Option<u16>)
    ensures
        res == parse_u16_spec(s@),
{
    let n = s.unicode_len();
    let mut i: usize = 0;
    if n > 0 && s.get_char(0) == '+' {
        i = 1;
    }
    let ghost digits = if s@.len() > 0 && s@[0] == '+' {
        s@.drop_first()
    } else {
        s@
    };
    assert(digits =~= s@.subrange(i as int, n as int));
    if i == n {
        return None;
    }
    let start = i;
    let mut acc: u32 = 0;
    while i < n
        invariant
            n == s@.len(),
            start <= i <= n,
            digits == s@.subrange(start as int, n as int),
            digits == (if s@.len() > 0 && s@[0] == '+' {
                s@.drop_first()
            } else {
                s@
            }),
            all_digits(s@.subrange(start as int, i as int)),
            acc == (if digits_value(s@.subrange(start as int, i as int)) < 65536 {
                digits_value(s@.subrange(start as int, i as int))
            } else {
                65536
            }),
        decreases n - i,
    {
        let c = s.get_char(i);
        match char_digit(c) {
            None => {
                assert(digits[i - start] == c);
                assert(!is_digit(digits[i - start]));
                assert(!all_digits(digits));
                return None;
            },
            Some(d) => {
                let ghost prefix = s@.subrange(start as int, i as int);
                let ghost next = s@.subrange(start as int, i + 1);
                assert(next.drop_last() =~= prefix);
                assert(next.last() == c);
                assert(all_digits(next));
                let v = acc * 10 + d;
                acc = if v < 65536 {
                    v
                } else {
                    65536
                };
                i = i + 1;
            },
        }
    }
    assert(s@.subrange(start as int, n as int) == digits);
    if acc < 65536 {
        Some(acc as u16)
    } else {
        None
    }
}

} // verus!

verus! {

proof fn lemma_digit_char(d: int)
    requires
        0 <= d <= 9,
    ensures
        is_digit(digit_char(d)),
        digit_value(digit_char(d)) == d,
{
}

proof fn lemma_decimal_digits(n: nat)
    ensures
        decimal(n).len() > 0,
        all_digits(decimal(n)),
        digits_value(decimal(n)) == n,
    decreases n,
{
    if n < 10 {
        lemma_digit_char(n as int);
        assert(decimal(n).drop_last() =~= Seq::<char>::empty());
        assert(digits_value(Seq::<char>::empty()) == 0);
    } else {
        lemma_decimal_digits(n / 10);
        lemma_digit_char((n % 10) as int);
        assert(decimal(n).drop_last() =~= decimal(n / 10));
        assert(decimal(n).last() == digit_char((n % 10) as int));
        assert(digits_value(decimal(n)) == digits_value(decimal(n / 10)) * 10 + digit_value(
            digit_char((n % 10) as int),
        ));
        assert(n == (n / 10) * 10 + n % 10);
        assert forall|i: int| 0 <= i < decimal(n).len() implies is_digit(#[trigger] decimal(n)[i]) by {
            if i < decimal(n / 10).len() {
                assert(decimal(n)[i] == decimal(n / 10)[i]);
            }
        }
    }
}

/// Rendering a port number in decimal and parsing it back gives the same
/// port.
pub proof fn law_port_decimal_round_trip(p: u16)
    ensures
        parse_u16_spec(decimal(p as nat)) == Some(p),
{
    lemma_decimal_digits(p as nat);
    assert(is_digit(decimal(p as nat)[0]));
}

/// Stripping trailing slashes leaves no trailing slash.
pub proof fn law_trimmed_url_has_no_trailing_slash(s: Seq<char>)
    ensures
        trim_trailing_slashes(s).len() == 0 || trim_trailing_slashes(s).last() != '/',
        trim_trailing_slashes(s).len() <= s.len(),
        trim_trailing_slashes(s) == s.subrange(0, trim_trailing_slashes(s).len() as int),
    decreases s.len(),
{
    if s.len() > 0 && s.last() == '/' {
        law_trimmed_url_has_no_trailing_slash(s.drop_last());
        assert(s.drop_last().subrange(0, trim_trailing_slashes(s).len() as int) =~= s.subrange(
            0,
            trim_trailing_slashes(s).len() as int,
        ));
    } else {
        assert(s.subrange(0, s.len() as int) =~= s);
    }
}

/// Stripping trailing slashes twice is the same as stripping them once.
pub proof fn law_trim_trailing_slashes_idempotent(s: Seq<char>)
    ensures
        trim_trailing_slashes(trim_trailing_slashes(s)) == trim_trailing_slashes(s),
{
    law_trimmed_url_has_no_trailing_slash(s);
}

/// A base URL with one more trailing slash names the same base.
pub proof fn law_extra_slash_is_ignored(s: Seq<char>)
    ensures
        trim_trailing_slashes(s.push('/')) == trim_trailing_slashes(s),
{
    assert(s.push('/').drop_last() =~= s);
}

} // verus!
