//! Decimal rendering of the integer and fixed-point quantities that appear in
//! emitted commands. Lengths, angles and font sizes are carried in hundredths
//! of a unit ("centi" values) and rendered with at most two fractional digits,
//! trailing zeros trimmed.

use vstd::prelude::*;

verus! {

/// The character for one decimal digit.
pub open spec fn digit_char(d: nat) -> char {
    (48 + d) as u8 as char
}

/// The decimal numeral of `n`, most significant digit first.
pub open spec fn spec_udec(n: nat) -> Seq<char>
    decreases n,
{
    if n < 10 {
        seq![digit_char(n)]
    } else {
        spec_udec(n / 10).push(digit_char(n % 10))
    }
}

/// The decimal numeral of `v`, with a leading minus sign when negative.
pub open spec fn spec_idec(v: int) -> Seq<char> {
    if v < 0 {
        seq!['-'] + spec_udec((-v) as nat)
    } else {
        spec_udec(v as nat)
    }
}

/// The rendering of a non-negative centi value: the whole part, then up to two
/// fractional digits, with `.00` and a trailing fractional zero dropped.
pub open spec fn spec_ucenti(v: nat) -> Seq<char> {
    let whole = v / 100;
    let frac = v % 100;
    if frac == 0 {
        spec_udec(whole)
    } else if frac % 10 == 0 {
        spec_udec(whole) + seq!['.'] + spec_udec(frac / 10)
    } else if frac < 10 {
        spec_udec(whole) + seq!['.', '0'] + spec_udec(frac)
    } else {
        spec_udec(whole) + seq!['.'] + spec_udec(frac)
    }
}

/// The rendering of a centi value, with a leading minus sign when negative.
pub open spec fn spec_icenti(v: int) -> Seq<char> {
    if v < 0 {
        seq!['-'] + spec_ucenti((-v) as nat)
    } else {
        spec_ucenti(v as nat)
    }
}

/// Relies on String::push: appends exactly the given character.
#[verifier::external_body]
pub fn push_char(s: &mut String, c: char)
    ensures
        final(s)@ == old(s)@ + seq![c],
{
    s.push(c);
}

/// Renders `n` as its decimal numeral.
pub fn fmt_u64(n: u64) -> (s: String)
    ensures
        s@ == spec_udec(n as nat),
    decreases n,
{
    if n < 10 {
        let mut s = String::new();
        push_char(&mut s, (48 + n as u8) as char);
        assert(s@ =~= spec_udec(n as nat));
        s
    } else {
        let mut s = fmt_u64(n / 10);
        push_char(&mut s, (48 + (n % 10) as u8) as char);
        assert(s@ =~= spec_udec(n as nat));
        s
    }
}

/// Renders `v` as its decimal numeral, minus sign included.
pub fn fmt_i64(v: i64) -> (s: String)
    ensures
        s@ == spec_idec(v as int),
{
    if v < 0 {
        let m: u64 = (-(v as i128)) as u64;
        let mut s = String::new();
        push_char(&mut s, '-');
        let digits = fmt_u64(m);
        s.append(digits.as_str());
        assert(s@ =~= spec_idec(v as int));
        s
    } else {
        fmt_u64(v as u64)
    }
}

/// Renders a non-negative centi value, e.g. `12728` as `127.28`,
/// `4500` as `45`, and `350` as `3.5`.
pub fn fmt_ucenti(v: u64) -> (s: String)
    ensures
        s@ == spec_ucenti(v as nat),
{
    let whole = v / 100;
    let frac = v % 100;
    let mut s = fmt_u64(whole);
    if frac == 0 {
    } else if frac % 10 == 0 {
        push_char(&mut s, '.');
        let d = fmt_u64(frac / 10);
        s.append(d.as_str());
    } else if frac < 10 {
        push_char(&mut s, '.');
        push_char(&mut s, '0');
        let d = fmt_u64(frac);
        s.append(d.as_str());
    } else {
        push_char(&mut s, '.');
        let d = fmt_u64(frac);
        s.append(d.as_str());
    }
    assert(s@ =~= spec_ucenti(v as nat));
    s
}

/// Renders a centi value, minus sign included.
pub fn fmt_icenti(v: i64) -> (s: String)
    ensures
        s@ == spec_icenti(v as int),
{
    if v < 0 {
        let m: u64 = (-(v as i128)) as u64;
        let mut s = String::new();
        push_char(&mut s, '-');
        let d = fmt_ucenti(m);
        s.append(d.as_str());
        assert(s@ =~= spec_icenti(v as int));
        s
    } else {
        fmt_ucenti(v as u64)
    }
}

} // verus!
