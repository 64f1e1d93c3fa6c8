//! Binary-to-text encoding for embedded raster images, following the
//! standard base64 alphabet (`A-Z a-z 0-9 + /`): input is taken in 3-byte
//! groups producing 4 output characters each, and a final group of 1 or 2
//! bytes is padded with `=` characters.

use vstd::prelude::*;

verus! {

/// The alphabet character for one 6-bit value.
pub open spec fn b64_char(v: int) -> char {
    if v < 26 {
        ((65 + v) as u8) as char
    } else if v < 52 {
        ((97 + (v - 26)) as u8) as char
    } else if v < 62 {
        ((48 + (v - 52)) as u8) as char
    } else if v == 62 {
        '+'
    } else {
        '/'
    }
}

/// The four characters of one full 3-byte group.
pub open spec fn b64_group3(a: u8, b: u8, c: u8) -> Seq<char> {
    seq![
        b64_char(a as int / 4),
        b64_char((a as int % 4) * 16 + b as int / 16),
        b64_char((b as int % 16) * 4 + c as int / 64),
        b64_char(c as int % 64),
    ]
}

/// The base64 text of a byte sequence, final partial group padded with `=`.
pub open spec fn spec_base64(s: Seq<u8>) -> Seq<char>
    decreases s.len(),
{
    if s.len() >= 3 {
        b64_group3(s[0], s[1], s[2]) + spec_base64(s.skip(3))
    } else if s.len() == 2 {
        seq![
            b64_char(s[0] as int / 4),
            b64_char((s[0] as int % 4) * 16 + s[1] as int / 16),
            b64_char((s[1] as int % 16) * 4),
            '=',
        ]
    } else if s.len() == 1 {
        seq![b64_char(s[0] as int / 4), b64_char((s[0] as int % 4) * 16), '=', '=']
    } else {
        Seq::empty()
    }
}

/// The 6-bit value of one alphabet character; 64 for any character outside
/// the alphabet, the padding sign included.
pub open spec fn b64_val(c: char) -> int {
    let u = c as u32;
    if 65 <= u <= 90 {
        u - 65
    } else if 97 <= u <= 122 {
        u - 97 + 26
    } else if 48 <= u <= 57 {
        u - 48 + 52
    } else if u == 43 {
        62
    } else if u == 47 {
        63
    } else {
        64
    }
}

proof fn lemma_b64_char_val(v: int)
    requires
        0 <= v < 64,
    ensures
        b64_val(b64_char(v)) == v,
        b64_char(v) != '=',
{
}

/// The bytes behind a base64 text: each 4-character group carries 3 bytes,
/// and the `=` padding of the final group cuts them to 2 or 1.
pub open spec fn spec_b64_decode(t: Seq<char>) -> Seq<u8>
    decreases t.len(),
{
    if t.len() < 4 {
        Seq::empty()
    } else if t.len() == 4 && t[3] == '=' && t[2] == '=' {
        seq![(b64_val(t[0]) * 4 + b64_val(t[1]) / 16) as u8]
    } else if t.len() == 4 && t[3] == '=' {
        seq![
            (b64_val(t[0]) * 4 + b64_val(t[1]) / 16) as u8,
            ((b64_val(t[1]) % 16) * 16 + b64_val(t[2]) / 4) as u8,
        ]
    } else {
        seq![
            (b64_val(t[0]) * 4 + b64_val(t[1]) / 16) as u8,
            ((b64_val(t[1]) % 16) * 16 + b64_val(t[2]) / 4) as u8,
            ((b64_val(t[2]) % 4) * 64 + b64_val(t[3])) as u8,
        ] + spec_b64_decode(t.skip(4))
    }
}

proof fn lemma_base64_length(s: Seq<u8>)
    ensures
        s.len() > 0 ==> spec_base64(s).len() >= 4,
        s.len() == 0 ==> spec_base64(s).len() == 0,
    decreases s.len(),
{
    if s.len() >= 3 {
        lemma_base64_length(s.skip(3));
    }
}

/// Encoding loses nothing: reading the base64 text back yields the original
/// byte sequence exactly.
pub proof fn lemma_base64_round_trip(s: Seq<u8>)
    ensures
        spec_b64_decode(spec_base64(s)) == s,
    decreases s.len(),
{
    let t = spec_base64(s);
    if s.len() == 0 {
        assert(spec_b64_decode(t) =~= s);
    } else if s.len() == 1 {
        let a = s[0] as int;
        lemma_b64_char_val(a / 4);
        lemma_b64_char_val((a % 4) * 16);
        assert(spec_b64_decode(t) =~= s);
    } else if s.len() == 2 {
        let a = s[0] as int;
        let b = s[1] as int;
        lemma_b64_char_val(a / 4);
        lemma_b64_char_val((a % 4) * 16 + b / 16);
        lemma_b64_char_val((b % 16) * 4);
        assert(spec_b64_decode(t) =~= s);
    } else {
        let a = s[0] as int;
        let b = s[1] as int;
        let c = s[2] as int;
        lemma_b64_char_val(a / 4);
        lemma_b64_char_val((a % 4) * 16 + b / 16);
        lemma_b64_char_val((b % 16) * 4 + c / 64);
        lemma_b64_char_val(c % 64);
        lemma_base64_round_trip(s.skip(3));
        lemma_base64_length(s.skip(3));
        assert(t.skip(4) =~= spec_base64(s.skip(3)));
        assert(spec_b64_decode(t) =~= s);
    }
}

/// Computes the alphabet character for one 6-bit value.
fn b64_byte(v: u8) -> (c: char)
    requires
        v < 64,
    ensures
        c == b64_char(v as int),
{
    if v < 26 {
        (65 + v) as char
    } else if v < 52 {
        (97 + (v - 26)) as char
    } else if v < 62 {
        (48 + (v - 52)) as char
    } else if v == 62 {
        '+'
    } else {
        '/'
    }
}

/// Encodes a byte sequence as base64 text.
pub fn base64_encode(data: &Vec<u8>) -> (r: String)
    ensures
        r@ == spec_base64(data@),
{
    let n = data.len();
    let mut r = String::new();
    let mut i: usize = 0;
    proof {
        assert(data@.skip(0) =~= data@);
        assert(r@ + spec_base64(data@) =~= spec_base64(data@));
    }
    while n - i >= 3
        invariant
            i <= n,
            n == data@.len(),
            spec_base64(data@) == r@ + spec_base64(data@.skip(i as int)),
        decreases n - i,
    {
        let a = data[i];
        let b = data[i + 1];
        let c = data[i + 2];
        let mut out = r;
        crate::numfmt::push_char(&mut out, b64_byte(a / 4));
        crate::numfmt::push_char(&mut out, b64_byte((a % 4) * 16 + b / 16));
        crate::numfmt::push_char(&mut out, b64_byte((b % 16) * 4 + c / 64));
        crate::numfmt::push_char(&mut out, b64_byte(c % 64));
        proof {
            let rest = data@.skip(i as int);
            assert(rest.len() >= 3);
            assert(rest[0] == a && rest[1] == b && rest[2] == c);
            assert(rest.skip(3) =~= data@.skip(i as int + 3));
            assert(out@ =~= r@ + b64_group3(a, b, c));
        }
        r = out;
        i = i + 3;
    }
    let rem = n - i;
    if rem == 2 {
        let a = data[i];
        let b = data[i + 1];
        crate::numfmt::push_char(&mut r, b64_byte(a / 4));
        crate::numfmt::push_char(&mut r, b64_byte((a % 4) * 16 + b / 16));
        crate::numfmt::push_char(&mut r, b64_byte((b % 16) * 4));
        crate::numfmt::push_char(&mut r, '=');
        proof {
            let rest = data@.skip(i as int);
            assert(rest.len() == 2);
            assert(rest[0] == a && rest[1] == b);
            assert(r@ =~= spec_base64(data@));
        }
    } else if rem == 1 {
        let a = data[i];
        crate::numfmt::push_char(&mut r, b64_byte(a / 4));
        crate::numfmt::push_char(&mut r, b64_byte((a % 4) * 16));
        crate::numfmt::push_char(&mut r, '=');
        crate::numfmt::push_char(&mut r, '=');
        proof {
            let rest = data@.skip(i as int);
            assert(rest.len() == 1);
            assert(rest[0] == a);
            assert(r@ =~= spec_base64(data@));
        }
    } else {
        proof {
            let rest = data@.skip(i as int);
            assert(rest.len() == 0);
            assert(spec_base64(rest) == Seq::<char>::empty());
            assert(r@ =~= spec_base64(data@));
        }
    }
    r
}

} // verus!
