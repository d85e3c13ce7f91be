//! The instructions behind the prefix bytes `DD` and `FD`: those of the main
//! table that use `HL`, with the index register `IX` or `IY` in its place.

use vstd::prelude::*;
use crate::template::{around_form, leading_form, plain_form, Form, Operand, Template};

verus! {

/// The index register that the prefix byte selects.
pub open spec fn index_text(prefix: u8) -> Seq<char> {
    if prefix == 0xDD {
        "IX"@
    } else {
        "IY"@
    }
}

/// The form of an instruction on the byte at the index register plus a
/// displacement: `head`, then `(`, the register, the signed displacement and
/// `)`, then `tail`.
pub open spec fn indexed_form(head: Seq<char>, index: Seq<char>, tail: Seq<char>) -> Form {
    around_form(head + "("@ + index, Operand::Displacement, ")"@ + tail)
}

/// The form for the byte `second` after `DD` or `FD`, `index` being the name
/// of the index register, if the byte stands for an instruction.
pub open spec fn index_form(index: Seq<char>, second: u8) -> Option<Form> {
    match second {
        0x09 => Some(plain_form("ADD "@ + index + ",BC"@)),
        0x19 => Some(plain_form("ADD "@ + index + ",DE"@)),
        0x21 => Some(leading_form("LD "@ + index + ","@, Operand::Word)),
        0x22 => Some(around_form("LD ("@, Operand::Word, "),"@ + index)),
        0x23 => Some(plain_form("INC "@ + index)),
        0x24 => Some(plain_form("INC "@ + index + "H"@)),
        0x25 => Some(plain_form("DEC "@ + index + "H"@)),
        0x26 => Some(leading_form("LD "@ + index + "H,"@, Operand::Byte)),
        0x29 => Some(plain_form("ADD "@ + index + ","@ + index)),
        0x2A => Some(around_form("LD "@ + index + ",("@, Operand::Word, ")"@)),
        0x2B => Some(plain_form("DEC "@ + index)),
        0x2C => Some(plain_form("INC "@ + index + "L"@)),
        0x2D => Some(plain_form("DEC "@ + index + "L"@)),
        0x2E => Some(leading_form("LD "@ + index + "L,"@, Operand::Byte)),
        0x34 => Some(indexed_form("INC "@, index, Seq::empty())),
        0x35 => Some(indexed_form("DEC "@, index, Seq::empty())),
        0x36 => Some(leading_form("LD "@ + "("@ + index, Operand::DisplacementByte)),
        0x39 => Some(plain_form("ADD "@ + index + ",SP"@)),
        0x44 => Some(plain_form("LD B,"@ + index + "H"@)),
        0x45 => Some(plain_form("LD B,"@ + index + "L"@)),
        0x46 => Some(indexed_form("LD B,"@, index, Seq::empty())),
        0x4C => Some(plain_form("LD C,"@ + index + "H"@)),
        0x4D => Some(plain_form("LD C,"@ + index + "L"@)),
        0x4E => Some(indexed_form("LD C,"@, index, Seq::empty())),
        0x54 => Some(plain_form("LD D,"@ + index + "H"@)),
        0x55 => Some(plain_form("LD D,"@ + index + "L"@)),
        0x56 => Some(indexed_form("LD D,"@, index, Seq::empty())),
        0x5C => Some(plain_form("LD E,"@ + index + "H"@)),
        0x5D => Some(plain_form("LD E,"@ + index + "L"@)),
        0x5E => Some(indexed_form("LD E,"@, index, Seq::empty())),
        0x60 => Some(plain_form("LD "@ + index + "H,B"@)),
        0x61 => Some(plain_form("LD "@ + index + "H,C"@)),
        0x62 => Some(plain_form("LD "@ + index + "H,D"@)),
        0x63 => Some(plain_form("LD "@ + index + "H,E"@)),
        0x64 => Some(plain_form("LD "@ + index + "H,"@ + index + "H"@)),
        0x65 => Some(plain_form("LD "@ + index + "H,"@ + index + "L"@)),
        0x66 => Some(indexed_form("LD H,"@, index, Seq::empty())),
        0x67 => Some(plain_form("LD "@ + index + "H,A"@)),
        0x68 => Some(plain_form("LD "@ + index + "L,B"@)),
        0x69 => Some(plain_form("LD "@ + index + "L,C"@)),
        0x6A => Some(plain_form("LD "@ + index + "L,D"@)),
        0x6B => Some(plain_form("LD "@ + index + "L,E"@)),
        0x6C => Some(plain_form("LD "@ + index + "L,"@ + index + "H"@)),
        0x6D => Some(plain_form("LD "@ + index + "L,"@ + index + "L"@)),
        0x6E => Some(indexed_form("LD L,"@, index, Seq::empty())),
        0x6F => Some(plain_form("LD "@ + index + "L,A"@)),
        0x70 => Some(indexed_form("LD "@, index, ",B"@)),
        0x71 => Some(indexed_form("LD "@, index, ",C"@)),
        0x72 => Some(indexed_form("LD "@, index, ",D"@)),
        0x73 => Some(indexed_form("LD "@, index, ",E"@)),
        0x74 => Some(indexed_form("LD "@, index, ",H"@)),
        0x75 => Some(indexed_form("LD "@, index, ",L"@)),
        0x77 => Some(indexed_form("LD "@, index, ",A"@)),
        0x7C => Some(plain_form("LD A,"@ + index + "H"@)),
        0x7D => Some(plain_form("LD A,"@ + index + "L"@)),
        0x7E => Some(indexed_form("LD A,"@, index, Seq::empty())),
        0x84 => Some(plain_form("ADD A,"@ + index + "H"@)),
        0x85 => Some(plain_form("ADD A,"@ + index + "L"@)),
        0x86 => Some(indexed_form("ADD A,"@, index, Seq::empty())),
        0x8C => Some(plain_form("ADC A,"@ + index + "H"@)),
        0x8D => Some(plain_form("ADC A,"@ + index + "L"@)),
        0x8E => Some(indexed_form("ADC A,"@, index, Seq::empty())),
        0x94 => Some(plain_form("SUB A,"@ + index + "H"@)),
        0x95 => Some(plain_form("SUB A,"@ + index + "L"@)),
        0x96 => Some(indexed_form("SUB "@, index, Seq::empty())),
        0x9C => Some(plain_form("SBC A,"@ + index + "H"@)),
        0x9D => Some(plain_form("SBC A,"@ + index + "L"@)),
        0x9E => Some(indexed_form("SBC A,"@, index, Seq::empty())),
        0xA4 => Some(plain_form("AND "@ + index + "H"@)),
        0xA5 => Some(plain_form("AND "@ + index + "L"@)),
        0xA6 => Some(indexed_form("AND "@, index, Seq::empty())),
        0xAC => Some(plain_form("XOR "@ + index + "H"@)),
        0xAD => Some(plain_form("XOR "@ + index + "L"@)),
        0xAE => Some(indexed_form("XOR "@, index, Seq::empty())),
        0xB4 => Some(plain_form("OR "@ + index + "H"@)),
        0xB5 => Some(plain_form("OR "@ + index + "L"@)),
        0xB6 => Some(indexed_form("OR "@, index, Seq::empty())),
        0xBC => Some(plain_form("CP "@ + index + "H"@)),
        0xBD => Some(plain_form("CP "@ + index + "L"@)),
        0xBE => Some(indexed_form("CP "@, index, Seq::empty())),
        0xE1 => Some(plain_form("POP "@ + index)),
        0xE3 => Some(plain_form("EX (SP),"@ + index)),
        0xE5 => Some(plain_form("PUSH "@ + index)),
        0xE9 => Some(plain_form("JP ("@ + index + ")"@)),
        0xF9 => Some(plain_form("LD SP,"@ + index)),
        _ => None,
    }
}

/// The name of the index register that the prefix byte selects.
pub fn index_name(prefix: u8) -> (s: &'static str)
    ensures
        s@ == index_text(prefix),
{
    if prefix == 0xDD {
        "IX"
    } else {
        "IY"
    }
}

/// The two texts in a row.
fn join2(a: &str, b: &str) -> (s: String)
    ensures
        s@ == a@ + b@,
{
    let mut s = String::from_str(a);
    s.append(b);
    s
}

/// The three texts in a row.
fn join3(a: &str, b: &str, c: &str) -> (s: String)
    ensures
        s@ == a@ + b@ + c@,
{
    let mut s = join2(a, b);
    s.append(c);
    s
}

/// The four texts in a row.
fn join4(a: &str, b: &str, c: &str, d: &str) -> (s: String)
    ensures
        s@ == a@ + b@ + c@ + d@,
{
    let mut s = join3(a, b, c);
    s.append(d);
    s
}

/// The five texts in a row.
fn join5(a: &str, b: &str, c: &str, d: &str, e: &str) -> (s: String)
    ensures
        s@ == a@ + b@ + c@ + d@ + e@,
{
    let mut s = join4(a, b, c, d);
    s.append(e);
    s
}

/// The template of an instruction on the byte at the index register plus a
/// displacement.
fn indexed(head: &str, index: &str, tail: &str) -> (t: Template)
    ensures
        t@ == indexed_form(head@, index@, tail@),
{
    Template::around(join3(head, "(", index), Operand::Displacement, join2(")", tail))
}

/// Looks up the byte `second` after `DD` or `FD`, `index` being the name of
/// the index register.
pub fn index_template(index: &str, second: u8) -> (t: Option<Template>)
    ensures
        t is Some == index_form(index@, second) is Some,
        t is Some ==> t->0@ == index_form(index@, second)->0,
{
    proof {
        reveal_strlit("");
    }
    let template = match second {
        0x09 => Template::plain(join3("ADD ", index, ",BC")),
        0x19 => Template::plain(join3("ADD ", index, ",DE")),
        0x21 => Template::leading(join3("LD ", index, ","), Operand::Word),
        0x22 => Template::around(String::from_str("LD ("), Operand::Word, join2("),", index)),
        0x23 => Template::plain(join2("INC ", index)),
        0x24 => Template::plain(join3("INC ", index, "H")),
        0x25 => Template::plain(join3("DEC ", index, "H")),
        0x26 => Template::leading(join3("LD ", index, "H,"), Operand::Byte),
        0x29 => Template::plain(join4("ADD ", index, ",", index)),
        0x2A => Template::around(join3("LD ", index, ",("), Operand::Word, String::from_str(")")),
        0x2B => Template::plain(join2("DEC ", index)),
        0x2C => Template::plain(join3("INC ", index, "L")),
        0x2D => Template::plain(join3("DEC ", index, "L")),
        0x2E => Template::leading(join3("LD ", index, "L,"), Operand::Byte),
        0x34 => indexed("INC ", index, ""),
        0x35 => indexed("DEC ", index, ""),
        0x36 => Template::leading(join3("LD ", "(", index), Operand::DisplacementByte),
        0x39 => Template::plain(join3("ADD ", index, ",SP")),
        0x44 => Template::plain(join3("LD B,", index, "H")),
        0x45 => Template::plain(join3("LD B,", index, "L")),
        0x46 => indexed("LD B,", index, ""),
        0x4C => Template::plain(join3("LD C,", index, "H")),
        0x4D => Template::plain(join3("LD C,", index, "L")),
        0x4E => indexed("LD C,", index, ""),
        0x54 => Template::plain(join3("LD D,", index, "H")),
        0x55 => Template::plain(join3("LD D,", index, "L")),
        0x56 => indexed("LD D,", index, ""),
        0x5C => Template::plain(join3("LD E,", index, "H")),
        0x5D => Template::plain(join3("LD E,", index, "L")),
        0x5E => indexed("LD E,", index, ""),
        0x60 => Template::plain(join3("LD ", index, "H,B")),
        0x61 => Template::plain(join3("LD ", index, "H,C")),
        0x62 => Template::plain(join3("LD ", index, "H,D")),
        0x63 => Template::plain(join3("LD ", index, "H,E")),
        0x64 => Template::plain(join5("LD ", index, "H,", index, "H")),
        0x65 => Template::plain(join5("LD ", index, "H,", index, "L")),
        0x66 => indexed("LD H,", index, ""),
        0x67 => Template::plain(join3("LD ", index, "H,A")),
        0x68 => Template::plain(join3("LD ", index, "L,B")),
        0x69 => Template::plain(join3("LD ", index, "L,C")),
        0x6A => Template::plain(join3("LD ", index, "L,D")),
        0x6B => Template::plain(join3("LD ", index, "L,E")),
        0x6C => Template::plain(join5("LD ", index, "L,", index, "H")),
        0x6D => Template::plain(join5("LD ", index, "L,", index, "L")),
        0x6E => indexed("LD L,", index, ""),
        0x6F => Template::plain(join3("LD ", index, "L,A")),
        0x70 => indexed("LD ", index, ",B"),
        0x71 => indexed("LD ", index, ",C"),
        0x72 => indexed("LD ", index, ",D"),
        0x73 => indexed("LD ", index, ",E"),
        0x74 => indexed("LD ", index, ",H"),
        0x75 => indexed("LD ", index, ",L"),
        0x77 => indexed("LD ", index, ",A"),
        0x7C => Template::plain(join3("LD A,", index, "H")),
        0x7D => Template::plain(join3("LD A,", index, "L")),
        0x7E => indexed("LD A,", index, ""),
        0x84 => Template::plain(join3("ADD A,", index, "H")),
        0x85 => Template::plain(join3("ADD A,", index, "L")),
        0x86 => indexed("ADD A,", index, ""),
        0x8C => Template::plain(join3("ADC A,", index, "H")),
        0x8D => Template::plain(join3("ADC A,", index, "L")),
        0x8E => indexed("ADC A,", index, ""),
        0x94 => Template::plain(join3("SUB A,", index, "H")),
        0x95 => Template::plain(join3("SUB A,", index, "L")),
        0x96 => indexed("SUB ", index, ""),
        0x9C => Template::plain(join3("SBC A,", index, "H")),
        0x9D => Template::plain(join3("SBC A,", index, "L")),
        0x9E => indexed("SBC A,", index, ""),
        0xA4 => Template::plain(join3("AND ", index, "H")),
        0xA5 => Template::plain(join3("AND ", index, "L")),
        0xA6 => indexed("AND ", index, ""),
        0xAC => Template::plain(join3("XOR ", index, "H")),
        0xAD => Template::plain(join3("XOR ", index, "L")),
        0xAE => indexed("XOR ", index, ""),
        0xB4 => Template::plain(join3("OR ", index, "H")),
        0xB5 => Template::plain(join3("OR ", index, "L")),
        0xB6 => indexed("OR ", index, ""),
        0xBC => Template::plain(join3("CP ", index, "H")),
        0xBD => Template::plain(join3("CP ", index, "L")),
        0xBE => indexed("CP ", index, ""),
        0xE1 => Template::plain(join2("POP ", index)),
        0xE3 => Template::plain(join2("EX (SP),", index)),
        0xE5 => Template::plain(join2("PUSH ", index)),
        0xE9 => Template::plain(join3("JP (", index, ")")),
        0xF9 => Template::plain(join2("LD SP,", index)),
        _ => {
            return None;
        },
    };
    Some(template)
}

} // verus!
