//! Escaping of text for the target markup's inline syntax.
//!
//! Four characters carry special meaning there: the backslash, the double
//! quote, `#` and `$`. Each is emitted behind a backslash; every other
//! character passes through unchanged.

use vstd::prelude::*;

verus! {

/// Whether `c` needs an escape in the emitted markup.
pub open spec fn is_special(c: char) -> bool {
    c == '\\' || c == '"' || c == '#' || c == '$'
}

/// The emitted form of one character of text.
pub open spec fn esc_char(c: char) -> Seq<char> {
    if is_special(c) {
        seq!['\\', c]
    } else {
        seq![c]
    }
}

/// The emitted form of a whole text: each character escaped independently.
pub open spec fn spec_escape(s: Seq<char>) -> Seq<char>
    decreases s.len(),
{
    if s.len() == 0 {
        Seq::empty()
    } else {
        esc_char(s[0]) + spec_escape(s.drop_first())
    }
}

pub proof fn lemma_escape_append(a: Seq<char>, b: Seq<char>)
    ensures
        spec_escape(a + b) == spec_escape(a) + spec_escape(b),
    decreases a.len(),
{
    if a.len() == 0 {
        assert(a + b =~= b);
        assert(spec_escape(a) + spec_escape(b) =~= spec_escape(b));
    } else {
        lemma_escape_append(a.drop_first(), b);
        assert((a + b).drop_first() =~= a.drop_first() + b);
        assert((a + b)[0] == a[0]);
        assert(esc_char(a[0]) + (spec_escape(a.drop_first()) + spec_escape(b)) =~= (esc_char(a[0])
            + spec_escape(a.drop_first())) + spec_escape(b));
    }
}

pub proof fn lemma_escape_snoc(s: Seq<char>, i: int)
    requires
        0 <= i < s.len(),
    ensures
        spec_escape(s.take(i + 1)) == spec_escape(s.take(i)) + esc_char(s[i]),
{
    assert(s.take(i + 1) =~= s.take(i) + seq![s[i]]);
    lemma_escape_append(s.take(i), seq![s[i]]);
    assert(seq![s[i]].drop_first() =~= Seq::<char>::empty());
    assert(spec_escape(Seq::<char>::empty()) == Seq::<char>::empty());
    assert(esc_char(s[i]) + Seq::<char>::empty() =~= esc_char(s[i]));
    assert(spec_escape(seq![s[i]]) == esc_char(s[i]));
}

/// The inverse reading of an escaped text: a backslash consumes the character
/// after it; every other character stands for itself.
pub open spec fn spec_unescape(t: Seq<char>) -> Seq<char>
    decreases t.len(),
{
    if t.len() == 0 {
        Seq::empty()
    } else if t[0] == '\\' && t.len() >= 2 {
        seq![t[1]] + spec_unescape(t.skip(2))
    } else {
        seq![t[0]] + spec_unescape(t.skip(1))
    }
}

/// Escaping loses nothing: reading the escaped text back yields the original
/// text exactly.
pub proof fn lemma_escape_round_trip(s: Seq<char>)
    ensures
        spec_unescape(spec_escape(s)) == s,
    decreases s.len(),
{
    if s.len() == 0 {
        assert(spec_unescape(spec_escape(s)) =~= s);
    } else {
        lemma_escape_round_trip(s.drop_first());
        let t = spec_escape(s);
        if is_special(s[0]) {
            assert(t[0] == '\\' && t.len() >= 2);
            assert(t[1] == s[0]);
            assert(t.skip(2) =~= spec_escape(s.drop_first()));
            assert(seq![s[0]] + s.drop_first() =~= s);
        } else {
            assert(t[0] == s[0]);
            assert(t[0] != '\\');
            assert(t.skip(1) =~= spec_escape(s.drop_first()));
            assert(seq![s[0]] + s.drop_first() =~= s);
        }
    }
}

/// Escaping leaves no markup character exposed: wherever `#`, `$` or `"`
/// occurs in the escaped text, a backslash stands immediately before it.
pub proof fn lemma_escape_guards_specials(s: Seq<char>)
    ensures
        forall|i: int|
            0 <= i < spec_escape(s).len() && (#[trigger] spec_escape(s)[i] == '#'
                || spec_escape(s)[i] == '$' || spec_escape(s)[i] == '"') ==> i >= 1
                && spec_escape(s)[i - 1] == '\\',
    decreases s.len(),
{
    if s.len() == 0 {
    } else {
        lemma_escape_guards_specials(s.drop_first());
        let u = esc_char(s[0]);
        let v = spec_escape(s.drop_first());
        let t = spec_escape(s);
        assert(t =~= u + v);
        assert forall|i: int|
            0 <= i < t.len() && (#[trigger] t[i] == '#' || t[i] == '$' || t[i] == '"') implies i
            >= 1 && t[i - 1] == '\\' by {
            if i < u.len() {
                if is_special(s[0]) {
                    assert(u[0] == '\\');
                } else {
                    assert(u[0] == s[0] && !is_special(s[0]));
                }
            } else {
                assert(t[i] == v[i - u.len()]);
                assert(v[i - u.len()] == '#' || v[i - u.len()] == '$' || v[i - u.len()] == '"');
                assert(i - u.len() >= 1 && v[i - u.len() - 1] == '\\');
                assert(t[i - 1] == v[i - u.len() - 1]);
            }
        }
    }
}

/// Escapes a text for emission: backslash, double quote, `#` and `$` each get
/// a backslash put before them.
pub fn escape_text(text: &str) -> (r: String)
    ensures
        r@ == spec_escape(text@),
{
    let n = text.unicode_len();
    let mut r = String::new();
    let mut i: usize = 0;
    while i < n
        invariant
            i <= n,
            n == text@.len(),
            r@ == spec_escape(text@.take(i as int)),
        decreases n - i,
    {
        let c = text.get_char(i);
        if c == '\\' || c == '"' || c == '#' || c == '$' {
            crate::numfmt::push_char(&mut r, '\\');
            crate::numfmt::push_char(&mut r, c);
            assert(r@ =~= spec_escape(text@.take(i as int)) + esc_char(text@[i as int]));
        } else {
            crate::numfmt::push_char(&mut r, c);
            assert(r@ =~= spec_escape(text@.take(i as int)) + esc_char(text@[i as int]));
        }
        proof {
            lemma_escape_snoc(text@, i as int);
        }
        i = i + 1;
    }
    proof {
        assert(text@.take(n as int) =~= text@);
    }
    r
}

} // verus!
