//! Numbers written out as text: decimal and hexadecimal digits.

use vstd::prelude::*;

verus! {

/// Assumed of `String::push` of the standard library, and not proved here:
/// the string afterwards is the string before with `ch` added at its end.
pub assume_specification[ String::push ](s: &mut String, ch: char)
    ensures
        final(s)@ == old(s)@.push(ch),
;

/// The character for one digit below sixteen: `0` to `9`, then `A` to `F`,
/// or `a` to `f` where `upper` is false.
pub open spec fn digit_char(d: int, upper: bool) -> char
    recommends
        0 <= d < 16,
{
    if d < 10 {
        (d + 0x30) as char
    } else if upper {
        (d - 10 + 0x41) as char
    } else {
        (d - 10 + 0x61) as char
    }
}

/// The digits of `n` in base ten, without leading zeros; `0` for zero.
pub open spec fn decimal_digits(n: nat) -> Seq<char>
    decreases n,
{
    if n < 10 {
        seq![digit_char(n as int, true)]
    } else {
        decimal_digits(n / 10).push(digit_char((n % 10) as int, true))
    }
}

/// `n` in base ten, with a minus sign in front where it is negative.
pub open spec fn signed_decimal_digits(n: int) -> Seq<char> {
    if n < 0 {
        seq!['-'] + decimal_digits((-n) as nat)
    } else {
        decimal_digits(n as nat)
    }
}

/// The digits of `n` in base sixteen, without leading zeros; `0` for zero.
pub open spec fn hex_digits(n: nat, upper: bool) -> Seq<char>
    decreases n,
{
    if n < 16 {
        seq![digit_char(n as int, upper)]
    } else {
        hex_digits(n / 16, upper).push(digit_char((n % 16) as int, upper))
    }
}

/// The digits of `n` in base two, without leading zeros; `0` for zero.
pub open spec fn binary_digits(n: nat) -> Seq<char>
    decreases n,
{
    if n < 2 {
        seq![digit_char(n as int, true)]
    } else {
        binary_digits(n / 2).push(digit_char((n % 2) as int, true))
    }
}

/// `count` zeros in a row.
pub open spec fn zeros(count: nat) -> Seq<char> {
    Seq::new(count, |i: int| '0')
}

/// `text` with zeros in front until it is `width` characters long; `text`
/// itself when it is that long already.
pub open spec fn zero_padded(text: Seq<char>, width: nat) -> Seq<char> {
    if text.len() < width {
        zeros((width - text.len()) as nat) + text
    } else {
        text
    }
}

/// `n` in base sixteen behind the prefix `0x`.
pub open spec fn prefixed_hex_digits(n: nat, upper: bool) -> Seq<char> {
    seq!['0', 'x'] + hex_digits(n, upper)
}

/// A number has at least one digit in base sixteen, and a number below
/// 2^32 at most eight.
pub proof fn lemma_hex_digits_len(n: nat, upper: bool)
    ensures
        hex_digits(n, upper).len() >= 1,
        n < 0x10 ==> hex_digits(n, upper).len() == 1,
        0x10 <= n < 0x100 ==> hex_digits(n, upper).len() == 2,
        0x100 <= n < 0x1000 ==> hex_digits(n, upper).len() == 3,
        0x1000 <= n < 0x1_0000 ==> hex_digits(n, upper).len() == 4,
        0x1_0000 <= n < 0x10_0000 ==> hex_digits(n, upper).len() == 5,
        0x10_0000 <= n < 0x100_0000 ==> hex_digits(n, upper).len() == 6,
        0x100_0000 <= n < 0x1000_0000 ==> hex_digits(n, upper).len() == 7,
        0x1000_0000 <= n < 0x1_0000_0000 ==> hex_digits(n, upper).len() == 8,
    decreases n,
{
    if n >= 16 {
        lemma_hex_digits_len(n / 16, upper);
    }
}

/// The character for one digit below sixteen.
pub fn digit_to_char(d: u8, upper: bool) -> (c: char)
    requires
        d < 16,
    ensures
        c == digit_char(d as int, upper),
{
    if d < 10 {
        (d + 0x30) as char
    } else if upper {
        (d - 10 + 0x41) as char
    } else {
        (d - 10 + 0x61) as char
    }
}

/// Writes `value` in base ten at the end of `out`.
pub fn push_decimal(out: &mut String, value: u64)
    ensures
        final(out)@ == old(out)@ + decimal_digits(value as nat),
    decreases value,
{
    if value >= 10 {
        push_decimal(out, value / 10);
    }
    out.push(digit_to_char((value % 10) as u8, true));
    assert(out@ =~= old(out)@ + decimal_digits(value as nat));
}

/// Writes `value` in base ten at the end of `out`, with a minus sign in
/// front where it is negative.
pub fn push_signed_decimal(out: &mut String, value: i64)
    ensures
        final(out)@ == old(out)@ + signed_decimal_digits(value as int),
{
    if value < 0 {
        out.push('-');
        let magnitude: u64 = if value == i64::MIN {
            0x8000_0000_0000_0000
        } else {
            (-value) as u64
        };
        push_decimal(out, magnitude);
        assert(out@ =~= old(out)@ + signed_decimal_digits(value as int));
    } else {
        push_decimal(out, value as u64);
    }
}

/// Writes `value` in base sixteen at the end of `out`, with upper-case
/// letters where `upper` is true.
pub fn push_hex(out: &mut String, value: u32, upper: bool)
    ensures
        final(out)@ == old(out)@ + hex_digits(value as nat, upper),
    decreases value,
{
    if value >= 16 {
        push_hex(out, value / 16, upper);
    }
    out.push(digit_to_char((value % 16) as u8, upper));
    assert(out@ =~= old(out)@ + hex_digits(value as nat, upper));
}

/// Writes `value` in base two at the end of `out`.
pub fn push_binary(out: &mut String, value: u32)
    ensures
        final(out)@ == old(out)@ + binary_digits(value as nat),
    decreases value,
{
    if value >= 2 {
        push_binary(out, value / 2);
    }
    out.push(digit_to_char((value % 2) as u8, true));
    assert(out@ =~= old(out)@ + binary_digits(value as nat));
}

/// The number of digits of `value` in base sixteen.
pub fn hex_len(value: u32, upper: bool) -> (len: usize)
    ensures
        len == hex_digits(value as nat, upper).len(),
        1 <= len <= 8,
{
    proof {
        lemma_hex_digits_len(value as nat, upper);
    }
    if value < 0x10 {
        1
    } else if value < 0x100 {
        2
    } else if value < 0x1000 {
        3
    } else if value < 0x1_0000 {
        4
    } else if value < 0x10_0000 {
        5
    } else if value < 0x100_0000 {
        6
    } else if value < 0x1000_0000 {
        7
    } else {
        8
    }
}

/// Writes `value` in base sixteen at the end of `out`, with zeros in front
/// where it has fewer than `width` digits.
pub fn push_hex_padded(out: &mut String, value: u32, width: usize, upper: bool)
    ensures
        final(out)@ == old(out)@ + zero_padded(hex_digits(value as nat, upper), width as nat),
{
    let len: usize = hex_len(value, upper);
    let ghost digits = hex_digits(value as nat, upper);
    let mut written: usize = len;
    while written < width
        invariant
            len <= written,
            written == len || written <= width,
            out@ == old(out)@ + zeros((written - len) as nat),
        decreases width - written,
    {
        out.push('0');
        written = written + 1;
        assert(out@ =~= old(out)@ + zeros((written - len) as nat));
    }
    let ghost padding = zeros((written - len) as nat);
    push_hex(out, value, upper);
    assert(zero_padded(digits, width as nat) =~= padding + digits);
    assert(out@ =~= old(out)@ + (padding + digits));
}

/// `value` in base sixteen behind `0x`, with upper-case letters.
pub fn prefixed_upper_hex(value: u32) -> (text: String)
    ensures
        text@ == prefixed_hex_digits(value as nat, true),
{
    let mut text = String::new();
    text.push('0');
    text.push('x');
    push_hex(&mut text, value, true);
    assert(text@ =~= prefixed_hex_digits(value as nat, true));
    text
}

/// `value` in base ten.
pub fn decimal(value: u64) -> (text: String)
    ensures
        text@ == decimal_digits(value as nat),
{
    let mut text = String::new();
    push_decimal(&mut text, value);
    assert(text@ =~= decimal_digits(value as nat));
    text
}

} // verus!
