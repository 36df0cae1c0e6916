use vstd::prelude::*;
use std::convert::TryFrom;

verus! {

/// A hexadecimal digit in either case.
pub open spec fn is_hex_digit(c: char) -> bool {
    ('0' <= c && c <= '9') || ('a' <= c && c <= 'f') || ('A' <= c && c <= 'F')
}

/// The value of one hexadecimal digit.
pub open spec fn hex_digit_value(c: char) -> nat {
    if '0' <= c && c <= '9' {
        (c as nat - '0' as nat) as nat
    } else if 'a' <= c && c <= 'f' {
        (c as nat - 'a' as nat + 10) as nat
    } else {
        (c as nat - 'A' as nat + 10) as nat
    }
}

/// The number that a run of hexadecimal digits spells, most significant first.
pub open spec fn hex_value(d: Seq<char>) -> nat
    decreases d.len(),
{
    if d.len() == 0 {
        0
    } else {
        hex_value(d.drop_last()) * 16 + hex_digit_value(d.last())
    }
}

/// Text that reads as a base-16 `u32`: an optional `+`, then at least one
/// hexadecimal digit, with a value that fits in 32 bits.
pub open spec fn reads_as_hex_u32(t: Seq<char>) -> bool {
    let d = if t.len() > 0 && t[0] == '+' { t.drop_first() } else { t };
    &&& d.len() > 0
    &&& forall|i: int| 0 <= i < d.len() ==> is_hex_digit(#[trigger] d[i])
    &&& hex_value(d) <= u32::MAX
}

/// Text that names a colour: an optional leading `#` before a base-16
/// number, seven or nine characters in all (`#RRGGBB` or `#RRGGBBAA`).
pub open spec fn is_color_text(s: Seq<char>) -> bool {
    let t = if s.len() > 0 && s[0] == '#' { s.drop_first() } else { s };
    &&& reads_as_hex_u32(t)
    &&& (s.len() == 7 || s.len() == 9)
}

/// Relies on `penrose::draw::Color::try_from(&str)`: it strips one leading
/// `#`, reads the rest with `u32::from_str_radix(_, 16)`, and succeeds when
/// that read succeeds and the whole text is seven or nine bytes long.
#[verifier::external_body]
fn penrose_accepts_color(s: &str) -> (r: bool)
    ensures
        r == is_color_text(s@),
{
    penrose::draw::Color::try_from(s).is_ok()
}

/// Whether the window manager accepts `s` as a colour.
pub fn is_valid_color(s: &str) -> (r: bool)
    ensures
        r == is_color_text(s@),
{
    penrose_accepts_color(s)
}

/// `n` hexadecimal digits spell a number below sixteen to the power `n`.
proof fn lemma_hex_value_bound(d: Seq<char>)
    requires
        forall|i: int| 0 <= i < d.len() ==> is_hex_digit(#[trigger] d[i]),
    ensures
        hex_value(d) < pow16(d.len() as int),
    decreases d.len(),
{
    if d.len() > 0 {
        let p = d.drop_last();
        assert forall|i: int| 0 <= i < p.len() implies is_hex_digit(#[trigger] p[i]) by {
            assert(p[i] == d[i]);
        }
        lemma_hex_value_bound(p);
        assert(is_hex_digit(d[d.len() - 1]));
        let v = hex_value(p);
        let c = hex_digit_value(d.last());
        let q = pow16(p.len() as int);
        assert(v * 16 + c < q * 16) by (nonlinear_arith)
            requires
                v < q,
                c < 16,
        ;
    }
}

/// Sixteen to the power `k`.
spec fn pow16(k: int) -> nat
    decreases k,
{
    if k <= 0 { 1 } else { 16 * pow16(k - 1) }
}

/// A `#` followed by six hexadecimal digits names a colour.
pub(crate) proof fn lemma_color_text_of_six(s: Seq<char>)
    requires
        s.len() == 7,
        s[0] == '#',
        forall|i: int| 1 <= i < 7 ==> is_hex_digit(#[trigger] s[i]),
    ensures
        is_color_text(s),
{
    let d = s.drop_first();
    assert forall|i: int| 0 <= i < d.len() implies is_hex_digit(#[trigger] d[i]) by {
        assert(d[i] == s[i + 1]);
    }
    lemma_hex_value_bound(d);
    reveal_with_fuel(pow16, 7);
}

} // verus!
