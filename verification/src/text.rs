//! Text helpers: decimal numbers and string comparison.

use vstd::prelude::*;
use vstd::string::StrSliceExecFns;

verus! {

/// The decimal digit for `d` (0 to 9).
pub open spec fn digit_char(d: int) -> char {
    if d == 0 {
        '0'
    } else if d == 1 {
        '1'
    } else if d == 2 {
        '2'
    } else if d == 3 {
        '3'
    } else if d == 4 {
        '4'
    } else if d == 5 {
        '5'
    } else if d == 6 {
        '6'
    } else if d == 7 {
        '7'
    } else if d == 8 {
        '8'
    } else {
        '9'
    }
}

/// The decimal digits of `n` (at least one digit, no leading zero).
pub open spec fn spec_digits(n: nat) -> Seq<char>
    decreases n,
{
    if n < 10 {
        seq![digit_char(n as int)]
    } else {
        spec_digits(n / 10).push(digit_char((n % 10) as int))
    }
}

/// The decimal text of `v`, with a leading `-` when negative.
pub open spec fn spec_decimal(v: int) -> Seq<char> {
    if v < 0 {
        seq!['-'] + spec_digits((-v) as nat)
    } else {
        spec_digits(v as nat)
    }
}

/// The one-character text of digit `d`.
fn digit_str(d: u64) -> (r: &'static str)
    requires
        d < 10,
    ensures
        r@ == seq![digit_char(d as int)],
{
    proof {
        reveal_strlit("0");
        reveal_strlit("1");
        reveal_strlit("2");
        reveal_strlit("3");
        reveal_strlit("4");
        reveal_strlit("5");
        reveal_strlit("6");
        reveal_strlit("7");
        reveal_strlit("8");
        reveal_strlit("9");
    }
    if d == 0 {
        "0"
    } else if d == 1 {
        "1"
    } else if d == 2 {
        "2"
    } else if d == 3 {
        "3"
    } else if d == 4 {
        "4"
    } else if d == 5 {
        "5"
    } else if d == 6 {
        "6"
    } else if d == 7 {
        "7"
    } else if d == 8 {
        "8"
    } else {
        "9"
    }
}

/// Appends the decimal digits of `n` to `out`.
fn append_digits(out: &mut String, n: u64)
    ensures
        final(out)@ == old(out)@ + spec_digits(n as nat),
    decreases n,
{
    if n < 10 {
        out.append(digit_str(n));
    } else {
        append_digits(out, n / 10);
        out.append(digit_str(n % 10));
        assert(old(out)@ + spec_digits((n / 10) as nat) + seq![digit_char((n % 10) as int)] =~= old(out)@
            + spec_digits(n as nat));
    }
}

/// The decimal text of `v`.
pub fn decimal_string(v: i32) -> (r: String)
    ensures
        r@ == spec_decimal(v as int),
{
    let mut out = String::new();
    if v < 0 {
        proof {
            reveal_strlit("-");
        }
        out.append("-");
        let n: i64 = -(v as i64);
        append_digits(&mut out, n as u64);
    } else {
        append_digits(&mut out, v as u64);
        assert(out@ =~= spec_decimal(v as int));
    }
    out
}

/// Whether two strings hold the same text.
pub fn str_equal(a: &str, b: &str) -> (r: bool)
    ensures
        r == (a@ == b@),
{
    let a_owned = String::from_str(a);
    let b_owned = String::from_str(b);
    a_owned == b_owned
}

/// Whether `needle` occurs in `haystack` as a run of consecutive characters.
pub open spec fn spec_contains_text(haystack: Seq<char>, needle: Seq<char>) -> bool {
    exists|i: int| 0 <= i && i + needle.len() <= haystack.len() && #[trigger] haystack.subrange(i, i + needle.len()) == needle
}

/// Whether `needle` occurs in `haystack`.
pub fn str_contains(haystack: &str, needle: &str) -> (r: bool)
    ensures
        r == spec_contains_text(haystack@, needle@),
{
    let n = haystack.unicode_len();
    let m = needle.unicode_len();
    if m > n {
        return false;
    }
    let mut i: usize = 0;
    while i <= n - m
        invariant
            n == haystack@.len(),
            m == needle@.len(),
            m <= n,
            i <= n - m + 1,
            forall|j: int| 0 <= j < i ==> #[trigger] haystack@.subrange(j, j + m) != needle@,
        decreases n - m + 1 - i,
    {
        let part = haystack.substring_char(i, i + m);
        if str_equal(part, needle) {
            return true;
        }
        if i == n - m {
            return false;
        }
        i = i + 1;
    }
    false
}

/// The decimal text of `v`.
pub fn decimal_u32(v: u32) -> (r: String)
    ensures
        r@ == spec_decimal(v as int),
{
    let mut out = String::new();
    append_digits(&mut out, v as u64);
    assert(out@ =~= spec_decimal(v as int));
    out
}

/// `a` followed by `b`.
pub fn concat2(a: &str, b: &str) -> (r: String)
    ensures
        r@ == a@ + b@,
{
    let mut out = String::from_str(a);
    out.append(b);
    out
}

/// `a`, `b` and `c` one after the other.
pub fn concat3(a: &str, b: &str, c: &str) -> (r: String)
    ensures
        r@ == a@ + b@ + c@,
{
    let mut out = String::from_str(a);
    out.append(b);
    out.append(c);
    out
}

/// `a`, `b`, `c` and `d` one after the other.
pub fn concat4(a: &str, b: &str, c: &str, d: &str) -> (r: String)
    ensures
        r@ == a@ + b@ + c@ + d@,
{
    let mut out = String::from_str(a);
    out.append(b);
    out.append(c);
    out.append(d);
    out
}

/// The text views of a list of strings.
pub open spec fn string_views(s: Seq<String>) -> Seq<Seq<char>> {
    s.map_values(|x: String| x@)
}

/// Appends `line` to `lines`.
pub fn push_line(lines: &mut Vec<String>, line: String)
    ensures
        string_views(final(lines)@) == string_views(old(lines)@).push(line@),
{
    let ghost before = lines@;
    lines.push(line);
    assert(string_views(lines@) =~= string_views(before).push(line@));
}

/// Owned copies of `lines`, in order.
pub fn lines_of(lines: Vec<&str>) -> (r: Vec<String>)
    ensures
        string_views(r@) == lines@.map_values(|s: &str| s@),
{
    let mut out: Vec<String> = Vec::new();
    let mut i: usize = 0;
    while i < lines.len()
        invariant
            i <= lines.len(),
            string_views(out@) == lines@.subrange(0, i as int).map_values(|s: &str| s@),
        decreases lines.len() - i,
    {
        push_line(&mut out, String::from_str(lines[i]));
        assert(lines@.subrange(0, i + 1).map_values(|s: &str| s@) =~= lines@.subrange(0, i as int).map_values(|s: &str| s@).push(
            lines@[i as int]@,
        ));
        i += 1;
    }
    assert(lines@.subrange(0, lines.len() as int) =~= lines@);
    out
}

/// `h` hundredths written as a decimal number with no trailing zeros after
/// the point, and no point for a whole number (as `f64` values print).
pub open spec fn spec_hundredths(h: u32) -> Seq<char> {
    let whole = spec_decimal((h / 100) as int);
    let frac = h % 100;
    if frac == 0 {
        whole
    } else if frac % 10 == 0 {
        whole + "."@ + spec_decimal((frac / 10) as int)
    } else if frac < 10 {
        whole + ".0"@ + spec_decimal(frac as int)
    } else {
        whole + "."@ + spec_decimal(frac as int)
    }
}

/// `h` hundredths written as a decimal number.
pub fn hundredths_string(h: u32) -> (r: String)
    ensures
        r@ == spec_hundredths(h),
{
    let whole = decimal_u32(h / 100);
    let frac = h % 100;
    if frac == 0 {
        whole
    } else if frac % 10 == 0 {
        concat3(whole.as_str(), ".", decimal_u32(frac / 10).as_str())
    } else if frac < 10 {
        concat3(whole.as_str(), ".0", decimal_u32(frac).as_str())
    } else {
        concat3(whole.as_str(), ".", decimal_u32(frac).as_str())
    }
}

} // verus!
