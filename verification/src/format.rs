//! Operand tokens: digit-led hexadecimal bytes and words, and signed decimal
//! displacements.

use vstd::prelude::*;

verus! {

/// The character for a digit value below sixteen: `0`-`9`, then `A`-`F`.
pub open spec fn digit_char(d: int) -> char {
    if d == 0 {
        '0'
    } else if d == 1 {
        '1'
    } else if d == 2 {
        '2'
    } else if d == 3 {
        '3'
    } else if d == 4 {
        '4'
    } else if d == 5 {
        '5'
    } else if d == 6 {
        '6'
    } else if d == 7 {
        '7'
    } else if d == 8 {
        '8'
    } else if d == 9 {
        '9'
    } else if d == 10 {
        'A'
    } else if d == 11 {
        'B'
    } else if d == 12 {
        'C'
    } else if d == 13 {
        'D'
    } else if d == 14 {
        'E'
    } else {
        'F'
    }
}

/// The two uppercase hexadecimal digits of a byte.
pub open spec fn hex_pair(v: int) -> Seq<char> {
    seq![digit_char(v / 16 % 16), digit_char(v % 16)]
}

/// `hex` followed by `H`, with a `0` in front where `lead`, the value of the
/// first digit, is a letter: every token then starts with a decimal digit.
pub open spec fn digit_led(lead: int, hex: Seq<char>) -> Seq<char> {
    if lead >= 10 {
        seq!['0'] + hex + seq!['H']
    } else {
        hex + seq!['H']
    }
}

/// The token for an unsigned byte: `10H`, `0FFH`.
pub open spec fn hex_byte_text(v: u8) -> Seq<char> {
    digit_led(v as int / 16, hex_pair(v as int))
}

/// The token for an unsigned 16-bit value: `1234H`, `0C000H`.
pub open spec fn hex_word_text(v: u16) -> Seq<char> {
    digit_led(v as int / 4096, hex_pair(v as int / 256) + hex_pair(v as int % 256))
}

/// The decimal digits of `n`, without leading zeros.
pub open spec fn decimal_text(n: nat) -> Seq<char>
    decreases n,
{
    if n < 10 {
        seq![digit_char(n as int)]
    } else {
        decimal_text(n / 10).push(digit_char((n % 10) as int))
    }
}

/// The value of a byte read as an 8-bit two's-complement number.
pub open spec fn signed_value(v: u8) -> int {
    if v < 0x80 {
        v as int
    } else {
        v - 256
    }
}

/// The token for a displacement: the sign, then the magnitude in decimal.
pub open spec fn signed_text(v: u8) -> Seq<char> {
    if signed_value(v) >= 0 {
        seq!['+'] + decimal_text(signed_value(v) as nat)
    } else {
        seq!['-'] + decimal_text((-signed_value(v)) as nat)
    }
}

/// The one-character text of a digit value below sixteen.
pub fn digit_str(d: u8) -> (s: &'static str)
    requires
        d < 16,
    ensures
        s@ == seq![digit_char(d as int)],
{
    proof {
        reveal_strlit("0");
        reveal_strlit("1");
        reveal_strlit("2");
        reveal_strlit("3");
        reveal_strlit("4");
        reveal_strlit("5");
        reveal_strlit("6");
        reveal_strlit("7");
        reveal_strlit("8");
        reveal_strlit("9");
        reveal_strlit("A");
        reveal_strlit("B");
        reveal_strlit("C");
        reveal_strlit("D");
        reveal_strlit("E");
        reveal_strlit("F");
    }
    let s: &'static str = match d {
        0 => "0",
        1 => "1",
        2 => "2",
        3 => "3",
        4 => "4",
        5 => "5",
        6 => "6",
        7 => "7",
        8 => "8",
        9 => "9",
        10 => "A",
        11 => "B",
        12 => "C",
        13 => "D",
        14 => "E",
        _ => "F",
    };
    assert(s@ =~= seq![digit_char(d as int)]);
    s
}

/// Appends the two hexadecimal digits of `v` to `out`.
pub fn push_hex_pair(out: &mut String, v: u8)
    ensures
        final(out)@ == old(out)@ + hex_pair(v as int),
{
    out.append(digit_str(v / 16));
    out.append(digit_str(v % 16));
    assert(out@ =~= old(out)@ + hex_pair(v as int));
}

/// Appends the decimal digits of `n` to `out`.
fn push_decimal(out: &mut String, n: u8)
    ensures
        final(out)@ == old(out)@ + decimal_text(n as nat),
{
    reveal_with_fuel(decimal_text, 3);
    if n >= 100 {
        out.append(digit_str(n / 100));
    }
    if n >= 10 {
        out.append(digit_str(n / 10 % 10));
    }
    out.append(digit_str(n % 10));
    assert(out@ =~= old(out)@ + decimal_text(n as nat));
}

/// Renders a byte as two uppercase hexadecimal digits and `H`, led by `0`
/// where the first digit is a letter.
pub fn format_hex_byte(v: u8) -> (s: String)
    ensures
        s@ == hex_byte_text(v),
{
    proof {
        reveal_strlit("0");
        reveal_strlit("H");
    }
    let mut s = String::new();
    if v >= 0xA0 {
        s.append("0");
    }
    push_hex_pair(&mut s, v);
    s.append("H");
    assert(s@ =~= hex_byte_text(v));
    s
}

/// Renders a 16-bit value as four uppercase hexadecimal digits and `H`, led
/// by `0` where the first digit is a letter.
pub fn format_hex_word(v: u16) -> (s: String)
    ensures
        s@ == hex_word_text(v),
{
    proof {
        reveal_strlit("0");
        reveal_strlit("H");
    }
    let high: u8 = (v / 256) as u8;
    let low: u8 = (v % 256) as u8;
    let mut s = String::new();
    if v >= 0xA000 {
        s.append("0");
    }
    push_hex_pair(&mut s, high);
    push_hex_pair(&mut s, low);
    s.append("H");
    assert(s@ =~= hex_word_text(v));
    s
}

/// Renders a byte, read as an 8-bit two's-complement number, as its sign and
/// its magnitude in decimal.
pub fn format_signed(v: u8) -> (s: String)
    ensures
        s@ == signed_text(v),
{
    proof {
        reveal_strlit("+");
        reveal_strlit("-");
    }
    let mut s = String::new();
    if v < 0x80 {
        s.append("+");
        push_decimal(&mut s, v);
    } else {
        s.append("-");
        let magnitude: u8 = (255 - v) + 1;
        push_decimal(&mut s, magnitude);
    }
    assert(s@ =~= signed_text(v));
    s
}

} // verus!
