//! The lines of a listing: for each record its mnemonic, its address and the
//! bytes it was decoded from, in columns.

use vstd::prelude::*;
use crate::decode::{DasmResult, Record};
use crate::format::{
    digit_char, digit_str, format_hex_word, hex_pair, hex_word_text, push_hex_pair,
};

verus! {

/// The width of the mnemonic column.
pub const MNEMONIC_WIDTH: usize = 20;

/// The number of bytes for which the byte column has room.
pub const BYTE_COLUMNS: usize = 4;

/// `n` times the character `c`.
pub open spec fn repeated(c: char, n: nat) -> Seq<char> {
    Seq::new(n, |i: int| c)
}

/// `text`, with blanks behind it up to `width` characters.
pub open spec fn padded_right(text: Seq<char>, width: nat) -> Seq<char> {
    if text.len() >= width {
        text
    } else {
        text + repeated(' ', (width - text.len()) as nat)
    }
}

/// The uppercase hexadecimal digits of `n`, without leading zeros.
pub open spec fn hex_digits(n: nat) -> Seq<char>
    decreases n,
{
    if n < 16 {
        seq![digit_char(n as int)]
    } else {
        hex_digits(n / 16).push(digit_char((n % 16) as int))
    }
}

/// An address in hexadecimal, with zeros in front up to four digits.
pub open spec fn address_text(address: nat) -> Seq<char> {
    let digits = hex_digits(address);
    if digits.len() >= 4 {
        digits
    } else {
        repeated('0', (4 - digits.len()) as nat) + digits
    }
}

/// Each byte as two hexadecimal digits and a blank.
pub open spec fn dump_text(bytes: Seq<u8>) -> Seq<char>
    decreases bytes.len(),
{
    if bytes.len() == 0 {
        Seq::empty()
    } else {
        dump_text(bytes.drop_last()) + hex_pair(bytes.last() as int) + seq![' ']
    }
}

/// The number of blanks that fill the byte column behind `count` bytes:
/// three for every byte by which `count` differs from the column's room.
pub open spec fn gap_width(count: nat) -> nat {
    if count <= BYTE_COLUMNS {
        (3 * (BYTE_COLUMNS - count)) as nat
    } else {
        (3 * (count - BYTE_COLUMNS)) as nat
    }
}

/// The line of a record that is shown at `address`.
pub open spec fn line_text(record: Record, address: nat) -> Seq<char> {
    padded_right(record.mnemonic, MNEMONIC_WIDTH as nat) + "    ;"@ + address_text(address)
        + ":  "@ + dump_text(record.bytes) + repeated(' ', gap_width(record.bytes.len()))
}

/// The line that states the load address, of which the low 16 bits are
/// shown.
pub open spec fn header_text(org: nat) -> Seq<char> {
    "            ORG "@ + hex_word_text((org % 0x10000) as u16)
}

/// Appends `n` times the one-character text `unit` to `out`.
fn push_repeated(out: &mut String, unit: &str, n: usize)
    requires
        unit@.len() == 1,
    ensures
        final(out)@ == old(out)@ + repeated(unit@[0], n as nat),
{
    let mut i: usize = 0;
    assert(out@ =~= old(out)@ + repeated(unit@[0], 0));
    while i < n
        invariant
            i <= n,
            unit@.len() == 1,
            out@ == old(out)@ + repeated(unit@[0], i as nat),
        decreases n - i,
    {
        out.append(unit);
        i += 1;
        assert(out@ =~= old(out)@ + repeated(unit@[0], i as nat));
    }
}

/// Appends the hexadecimal digits of `n` to `out`.
fn push_hex_digits(out: &mut String, n: usize)
    ensures
        final(out)@ == old(out)@ + hex_digits(n as nat),
    decreases n,
{
    if n >= 16 {
        push_hex_digits(out, n / 16);
    }
    out.append(digit_str((n % 16) as u8));
    assert(out@ =~= old(out)@ + hex_digits(n as nat));
}

/// The number of hexadecimal digits of `n`.
fn hex_width(n: usize) -> (w: usize)
    ensures
        w == hex_digits(n as nat).len(),
        1 <= w <= n + 1,
    decreases n,
{
    if n >= 16 {
        hex_width(n / 16) + 1
    } else {
        1
    }
}

/// Renders an address in hexadecimal, with zeros in front up to four digits.
pub fn format_address(address: usize) -> (s: String)
    ensures
        s@ == address_text(address as nat),
{
    proof {
        reveal_strlit("0");
    }
    let width: usize = hex_width(address);
    let mut s = String::new();
    if width < 4 {
        push_repeated(&mut s, "0", 4 - width);
    }
    push_hex_digits(&mut s, address);
    assert(s@ =~= address_text(address as nat));
    s
}

/// Renders each byte as two hexadecimal digits and a blank.
pub fn hex_dump(bytes: &Vec<u8>) -> (s: String)
    ensures
        s@ == dump_text(bytes@),
{
    let mut s = String::new();
    let mut i: usize = 0;
    assert(bytes@.take(0) =~= Seq::<u8>::empty());
    while i < bytes.len()
        invariant
            i <= bytes.len(),
            s@ == dump_text(bytes@.take(i as int)),
        decreases bytes.len() - i,
    {
        push_hex_pair(&mut s, bytes[i]);
        s.append(" ");
        i += 1;
        proof {
            reveal_strlit(" ");
            assert(bytes@.take(i as int).drop_last() =~= bytes@.take(i - 1));
            assert(bytes@.take(i as int).last() == bytes@[i - 1]);
            assert(s@ =~= dump_text(bytes@.take(i as int)));
        }
    }
    assert(bytes@.take(i as int) =~= bytes@);
    s
}

/// Renders the line that states the load address.
pub fn format_header(org: usize) -> (s: String)
    ensures
        s@ == header_text(org as nat),
{
    let mut s = String::from_str("            ORG ");
    s.append(format_hex_word((org % 0x10000) as u16).as_str());
    s
}

/// Renders the line of a record that is shown at `address`: the mnemonic in
/// a column of twenty characters, the address, and the bytes in a column
/// with room for four of them.
pub fn format_line(record: &DasmResult, address: usize) -> (s: String)
    ensures
        s@ == line_text(record@, address as nat),
{
    proof {
        reveal_strlit(" ");
    }
    let mut s = record.mnemonic.clone();
    let used: usize = record.mnemonic.as_str().unicode_len();
    if used < MNEMONIC_WIDTH {
        push_repeated(&mut s, " ", MNEMONIC_WIDTH - used);
    }
    s.append("    ;");
    s.append(format_address(address).as_str());
    s.append(":  ");
    s.append(hex_dump(&record.opcodes_data).as_str());
    let count: usize = record.opcodes_data.len();
    if count <= BYTE_COLUMNS {
        push_repeated(&mut s, " ", 3 * (BYTE_COLUMNS - count));
    } else {
        let over: usize = count - BYTE_COLUMNS;
        push_repeated(&mut s, " ", over);
        push_repeated(&mut s, " ", over);
        push_repeated(&mut s, " ", over);
        assert(repeated(' ', over as nat) + repeated(' ', over as nat) + repeated(
            ' ',
            over as nat,
        ) =~= repeated(' ', gap_width(count as nat)));
    }
    assert(s@ =~= line_text(record@, address as nat));
    s
}

} // verus!
