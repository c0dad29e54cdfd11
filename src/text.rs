//! Extraction of single fields from helper-process output and version strings.
use vstd::prelude::*;

verus! {

pub open spec fn is_newline(c: u8) -> bool {
    c == 10
}

/// Index of the first line feed at or after `i`, or the length when there is none.
pub open spec fn newline_from(b: Seq<u8>, i: int) -> int
    decreases b.len() - i,
{
    if i >= b.len() {
        b.len() as int
    } else if is_newline(b[i]) {
        i
    } else {
        newline_from(b, i + 1)
    }
}

/// The second line-feed-separated field of `b`; `None` when `b` holds no line feed.
pub open spec fn second_line_spec(b: Seq<u8>) -> Option<Seq<u8>> {
    let first = newline_from(b, 0);
    if first >= b.len() {
        None
    } else {
        Some(b.subrange(first + 1, newline_from(b, first + 1)))
    }
}

proof fn lemma_newline_from_bounds(b: Seq<u8>, i: int)
    requires
        0 <= i <= b.len(),
    ensures
        i <= newline_from(b, i) <= b.len(),
    decreases b.len() - i,
{
    if i < b.len() && !is_newline(b[i]) {
        lemma_newline_from_bounds(b, i + 1);
    }
}

fn find_newline(b: &Vec<u8>, start: usize) -> (r: usize)
    requires
        start <= b@.len(),
    ensures
        r as int == newline_from(b@, start as int),
{
    let mut i: usize = start;
    while i < b.len()
        invariant
            start <= i <= b@.len(),
            newline_from(b@, i as int) == newline_from(b@, start as int),
        decreases b@.len() - i,
    {
        if b[i] == 10 {
            return i;
        }
        i = i + 1;
    }
    i
}

fn copy_range(b: &Vec<u8>, from: usize, to: usize) -> (r: Vec<u8>)
    requires
        from <= to <= b@.len(),
    ensures
        r@ == b@.subrange(from as int, to as int),
{
    let mut r: Vec<u8> = Vec::new();
    let mut i: usize = from;
    while i < to
        invariant
            from <= i <= to <= b@.len(),
            r@ == b@.subrange(from as int, i as int),
        decreases to - i,
    {
        r.push(b[i]);
        i = i + 1;
    }
    r
}

/// The second line of a helper's output: the first line is the tool's header.
pub fn second_line(b: &Vec<u8>) -> (r: Option<Vec<u8>>)
    ensures
        r matches Some(l) ==> second_line_spec(b@) == Some(l@),
        r is None <==> second_line_spec(b@) is None,
{
    let first = find_newline(b, 0);
    if first >= b.len() {
        None
    } else {
        proof {
            lemma_newline_from_bounds(b@, first as int + 1);
        }
        let end = find_newline(b, first + 1);
        Some(copy_range(b, first + 1, end))
    }
}

/// What `String::from_utf8_lossy` makes of a byte sequence.
pub uninterp spec fn lossy_text(b: Seq<u8>) -> Seq<char>;

/// Unicode's White_Space property, which `str::trim` strips.
pub open spec fn is_white_space(c: char) -> bool {
    let u = c as u32;
    (0x9 <= u <= 0xd) || u == 0x20 || u == 0x85 || u == 0xa0 || u == 0x1680 || (0x2000 <= u
        <= 0x200a) || u == 0x2028 || u == 0x2029 || u == 0x202f || u == 0x205f || u == 0x3000
}

/// Number of White_Space characters at the start of `s`.
pub open spec fn leading_white_space(s: Seq<char>) -> nat
    decreases s.len(),
{
    if s.len() > 0 && is_white_space(s[0]) {
        1 + leading_white_space(s.drop_first())
    } else {
        0
    }
}

/// Number of White_Space characters at the end of `s`.
pub open spec fn trailing_white_space(s: Seq<char>) -> nat
    decreases s.len(),
{
    if s.len() > 0 && is_white_space(s.last()) {
        1 + trailing_white_space(s.drop_last())
    } else {
        0
    }
}

/// `s` without its leading and trailing White_Space characters.
pub open spec fn trimmed(s: Seq<char>) -> Seq<char> {
    let t = s.subrange(leading_white_space(s) as int, s.len() as int);
    t.subrange(0, t.len() - trailing_white_space(t))
}

/// Relies on String::from_utf8_lossy: decodes UTF-8, replacing invalid sequences.
#[verifier::external_body]
pub(crate) fn decode_lossy(b: &[u8]) -> (r: String)
    ensures
        r@ == lossy_text(b@),
{
    String::from_utf8_lossy(b).into_owned()
}

/// Relies on str::trim: drops leading and trailing white space.
#[verifier::external_body]
pub(crate) fn trim_text(s: &str) -> (r: String)
    ensures
        r@ == trimmed(s@),
{
    s.trim().to_string()
}

/// The trimmed text of a whole helper output.
pub fn trimmed_output(b: &Vec<u8>) -> (r: String)
    ensures
        r@ == trimmed(lossy_text(b@)),
{
    let s = decode_lossy(b.as_slice());
    trim_text(s.as_str())
}

pub open spec fn is_digit(c: char) -> bool {
    '0' <= c <= '9'
}

pub open spec fn digit_value(c: char) -> int {
    c as u32 as int - '0' as u32 as int
}

pub open spec fn all_digits(s: Seq<char>) -> bool {
    forall|i: int| 0 <= i < s.len() ==> #[trigger] is_digit(s[i])
}

/// The number that a string of decimal digits writes.
pub open spec fn decimal_value(s: Seq<char>) -> int
    decreases s.len(),
{
    if s.len() == 0 {
        0
    } else {
        decimal_value(s.drop_last()) * 10 + digit_value(s.last())
    }
}

/// `u8::from_str`: an optional `+`, then one or more decimal digits whose value fits.
pub open spec fn parse_u8_spec(s: Seq<char>) -> Option<u8> {
    let d = if s.len() > 0 && s[0] == '+' {
        s.drop_first()
    } else {
        s
    };
    if d.len() > 0 && all_digits(d) && decimal_value(d) <= 255 {
        Some(decimal_value(d) as u8)
    } else {
        None
    }
}

/// Index of the first `.` at or after `i`, or the length when there is none.
pub open spec fn dot_from(s: Seq<char>, i: int) -> int
    decreases s.len() - i,
{
    if i >= s.len() {
        s.len() as int
    } else if s[i] == '.' {
        i
    } else {
        dot_from(s, i + 1)
    }
}

/// The major component of a dotted version string, read as a number; 0 when it is not one.
pub open spec fn major_version_spec(v: Seq<char>) -> u8 {
    match parse_u8_spec(v.subrange(0, dot_from(v, 0))) {
        Some(n) => n,
        None => 0,
    }
}

proof fn lemma_dot_from_bounds(s: Seq<char>, i: int)
    requires
        0 <= i <= s.len(),
    ensures
        i <= dot_from(s, i) <= s.len(),
    decreases s.len() - i,
{
    if i < s.len() && s[i] != '.' {
        lemma_dot_from_bounds(s, i + 1);
    }
}

proof fn lemma_decimal_value_nonneg(s: Seq<char>)
    requires
        all_digits(s),
    ensures
        decimal_value(s) >= 0,
    decreases s.len(),
{
    if s.len() > 0 {
        assert(is_digit(s[s.len() - 1]));
        assert(all_digits(s.drop_last())) by {
            assert forall|i: int| 0 <= i < s.drop_last().len() implies is_digit(
                s.drop_last()[i],
            ) by {
                assert(is_digit(s[i]));
            }
        }
        lemma_decimal_value_nonneg(s.drop_last());
    }
}

/// Reads the major component of a dotted version string ("14.2.1" gives 14).
pub fn major_version(v: &str) -> (r: u8)
    ensures
        r == major_version_spec(v@),
{
    let n = v.unicode_len();
    let mut end: usize = 0;
    while end < n && v.get_char(end) != '.'
        invariant
            end <= n,
            n == v@.len(),
            dot_from(v@, end as int) == dot_from(v@, 0),
        decreases n - end,
    {
        end = end + 1;
    }
    proof {
        lemma_dot_from_bounds(v@, end as int);
    }
    let ghost major = v@.subrange(0, end as int);
    assert(end as int == dot_from(v@, 0));
    let mut start: usize = 0;
    if end > 0 && v.get_char(0) == '+' {
        start = 1;
    }
    let ghost d = v@.subrange(start as int, end as int);
    assert(d =~= (if major.len() > 0 && major[0] == '+' {
        major.drop_first()
    } else {
        major
    }));
    if start >= end {
        return 0;
    }
    let mut acc: u32 = 0;
    let mut i: usize = start;
    while i < end
        invariant
            start <= i <= end <= n,
            n == v@.len(),
            d == v@.subrange(start as int, end as int),
            end as int == dot_from(v@, 0),
            major == v@.subrange(0, end as int),
            d == (if major.len() > 0 && major[0] == '+' {
                major.drop_first()
            } else {
                major
            }),
            all_digits(v@.subrange(start as int, i as int)),
            acc <= 256,
            acc == (if decimal_value(v@.subrange(start as int, i as int)) < 256 {
                decimal_value(v@.subrange(start as int, i as int))
            } else {
                256
            }),
        decreases end - i,
    {
        let c = v.get_char(i);
        if !('0' <= c && c <= '9') {
            assert(d[i - start] == c);
            assert(!is_digit(d[i - start]));
            assert(!all_digits(d));
            return 0;
        }
        let digit: u32 = (c as u32) - ('0' as u32);
        let ghost prev = v@.subrange(start as int, i as int);
        let ghost next = v@.subrange(start as int, i + 1);
        assert(next.drop_last() =~= prev);
        assert(all_digits(next)) by {
            assert forall|k: int| 0 <= k < next.len() implies is_digit(next[k]) by {
                if k < prev.len() {
                    assert(next[k] == prev[k]);
                }
            }
        }
        proof {
            lemma_decimal_value_nonneg(prev);
        }
        let ghost pv = decimal_value(prev);
        assert(decimal_value(next) == pv * 10 + digit);
        let t: u32 = acc * 10 + digit;
        assert(t < 256 ==> pv < 256) by (nonlinear_arith)
            requires
                acc == (if pv < 256 { pv } else { 256 }),
                t == acc * 10 + digit,
                pv >= 0,
        ;
        assert(pv >= 256 ==> pv * 10 + digit >= 256) by (nonlinear_arith)
            requires
                pv >= 0,
        ;
        acc = if t < 256 {
            t
        } else {
            256
        };
        i = i + 1;
    }
    assert(v@.subrange(start as int, i as int) == d);
    if acc <= 255 {
        acc as u8
    } else {
        0
    }
}

} // verus!
