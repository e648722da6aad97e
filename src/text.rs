//! Rendering numbers as text for instruction traces.
use vstd::prelude::*;

verus! {

/// The character for digit `d` (0-9, then upper-case A-F).
pub open spec fn digit_char(d: nat) -> char {
    if d < 10 {
        (d + 48) as char
    } else {
        (d + 55) as char
    }
}

/// `n` in decimal, most significant digit first, without padding.
pub open spec fn decimal(n: nat) -> Seq<char>
    decreases n,
{
    if n < 10 {
        seq![digit_char(n)]
    } else {
        decimal(n / 10) + seq![digit_char(n % 10)]
    }
}

/// `n` in upper-case hexadecimal, most significant digit first, without
/// prefix or padding.
pub open spec fn hex_upper(n: nat) -> Seq<char>
    decreases n,
{
    if n < 16 {
        seq![digit_char(n)]
    } else {
        hex_upper(n / 16) + seq![digit_char(n % 16)]
    }
}

/// `n` in binary, most significant digit first, without prefix or padding.
pub open spec fn binary(n: nat) -> Seq<char>
    decreases n,
{
    if n < 2 {
        seq![digit_char(n)]
    } else {
        binary(n / 2) + seq![digit_char(n % 2)]
    }
}

/// Relies on std's `Display` for `u64`: the decimal digits of `v`, most
/// significant first, with no sign, padding or separators.
#[verifier::external_body]
pub(crate) fn dec_text(v: u64) -> (r: String)
    ensures
        r@ == decimal(v as nat),
{
    format!("{}", v)
}

/// Relies on std's `UpperHex` for `u64`: the upper-case hexadecimal digits of
/// `v`, most significant first, with no prefix or padding.
#[verifier::external_body]
pub(crate) fn hex_text(v: u64) -> (r: String)
    ensures
        r@ == hex_upper(v as nat),
{
    format!("{:X}", v)
}

/// Relies on std's `Binary` for `u64`: the binary digits of `v`, most
/// significant first, with no prefix or padding.
#[verifier::external_body]
pub(crate) fn bin_text(v: u64) -> (r: String)
    ensures
        r@ == binary(v as nat),
{
    format!("{:b}", v)
}

/// A register operand: `x` and the register number.
pub open spec fn reg_text(r: u8) -> Seq<char> {
    "x"@ + decimal(r as nat)
}

/// A mnemonic followed by two operands.
pub open spec fn asm2(name: Seq<char>, a: Seq<char>, b: Seq<char>) -> Seq<char> {
    name + " "@ + a + ", "@ + b
}

/// A mnemonic followed by three operands.
pub open spec fn asm3(name: Seq<char>, a: Seq<char>, b: Seq<char>, c: Seq<char>) -> Seq<char> {
    asm2(name, a, b) + ", "@ + c
}

pub fn reg(r: u8) -> (s: String)
    ensures
        s@ == reg_text(r),
{
    let mut s = String::from_str("x");
    let n = dec_text(r as u64);
    s.append(n.as_str());
    s
}

pub fn fmt2(name: &str, a: String, b: String) -> (s: String)
    ensures
        s@ == asm2(name@, a@, b@),
{
    let mut s = String::from_str(name);
    s.append(" ");
    s.append(a.as_str());
    s.append(", ");
    s.append(b.as_str());
    s
}

pub fn fmt3(name: &str, a: String, b: String, c: String) -> (s: String)
    ensures
        s@ == asm3(name@, a@, b@, c@),
{
    let mut s = fmt2(name, a, b);
    s.append(", ");
    s.append(c.as_str());
    s
}

} // verus!
