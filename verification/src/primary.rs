//! The instructions that a single opcode byte selects.

use vstd::prelude::*;
use crate::register::{register_name, register_text};
use crate::template::{around_form, leading_form, plain_form, unknown_form, Form, Operand, Template};

verus! {

/// Whether the byte `opcode` leads into a second table, which the byte after
/// it indexes.
pub open spec fn is_prefix(opcode: u8) -> bool {
    opcode == 0xCB || opcode == 0xDD || opcode == 0xFD
}

/// The forms of the opcodes below `40`: loads of immediates, increments and
/// decrements, relative jumps and single-byte operations.
pub open spec fn low_form(opcode: u8) -> Form {
    match opcode {
        0x00 => plain_form("NOP"@),
        0x01 => leading_form("LD BC,"@, Operand::Word),
        0x02 => plain_form("LD (BC),A"@),
        0x03 => plain_form("INC BC"@),
        0x04 => plain_form("INC B"@),
        0x05 => plain_form("DEC B"@),
        0x06 => leading_form("LD B,"@, Operand::Byte),
        0x07 => plain_form("RLCA"@),
        0x08 => plain_form("EX AF,AF'"@),
        0x09 => plain_form("ADD HL,BC"@),
        0x0A => plain_form("LD A,(BC)"@),
        0x0B => plain_form("DEC BC"@),
        0x0C => plain_form("INC C"@),
        0x0D => plain_form("DEC C"@),
        0x0E => leading_form("LD C,"@, Operand::Byte),
        0x0F => plain_form("RRCA"@),
        0x10 => leading_form("DJNZ "@, Operand::Byte),
        0x11 => leading_form("LD DE,"@, Operand::Word),
        0x12 => plain_form("LD (DE),A"@),
        0x13 => plain_form("INC DE"@),
        0x14 => plain_form("INC D"@),
        0x15 => plain_form("DEC D"@),
        0x16 => leading_form("LD D,"@, Operand::Byte),
        0x17 => plain_form("RLA"@),
        0x18 => leading_form("JR "@, Operand::Byte),
        0x19 => plain_form("ADD HL,DE"@),
        0x1A => plain_form("LD A,(DE)"@),
        0x1B => plain_form("DEC DE"@),
        0x1C => plain_form("INC E"@),
        0x1D => plain_form("DEC E"@),
        0x1E => leading_form("LD E,"@, Operand::Byte),
        0x1F => plain_form("RRA"@),
        0x20 => leading_form("JR NZ,"@, Operand::Byte),
        0x21 => leading_form("LD HL,"@, Operand::Word),
        0x22 => around_form("LD ("@, Operand::Word, "),HL"@),
        0x23 => plain_form("INC HL"@),
        0x24 => plain_form("INC H"@),
        0x25 => plain_form("DEC H"@),
        0x26 => leading_form("LD H,"@, Operand::Byte),
        0x27 => plain_form("DAA"@),
        0x28 => leading_form("JR Z,"@, Operand::Byte),
        0x29 => plain_form("ADD HL,HL"@),
        0x2A => around_form("LD HL,("@, Operand::Word, ")"@),
        0x2B => plain_form("DEC HL"@),
        0x2C => plain_form("INC L"@),
        0x2D => plain_form("DEC L"@),
        0x2E => leading_form("LD L,"@, Operand::Byte),
        0x2F => plain_form("CPL"@),
        0x30 => leading_form("JR NC,"@, Operand::Byte),
        0x31 => leading_form("LD SP,"@, Operand::Word),
        0x32 => around_form("LD ("@, Operand::Word, "),A"@),
        0x33 => plain_form("INC SP"@),
        0x34 => plain_form("INC (HL)"@),
        0x35 => plain_form("DEC (HL)"@),
        0x36 => leading_form("LD (HL),"@, Operand::Byte),
        0x37 => plain_form("SCF"@),
        0x38 => leading_form("JR C,"@, Operand::Byte),
        0x39 => plain_form("LD HL,SP"@),
        0x3A => around_form("LD A,("@, Operand::Word, ")"@),
        0x3B => plain_form("DEC SP"@),
        0x3C => plain_form("INC A"@),
        0x3D => plain_form("DEC A"@),
        0x3E => leading_form("LD A,"@, Operand::Byte),
        0x3F => plain_form("CCF"@),
        _ => unknown_form(),
    }
}

/// The forms of the opcodes from `40` to `7F`: the load of one 8-bit operand
/// into another, the upper three bits of the low six naming the target and
/// the lower three the source. `76` is `HALT`.
pub open spec fn load_form(opcode: u8) -> Form {
    if opcode == 0x76 {
        plain_form("HALT"@)
    } else {
        plain_form(
            "LD "@ + register_text((opcode - 0x40) / 8) + ","@ + register_text(opcode as int % 8),
        )
    }
}

/// The name of the arithmetic or logic operation of number `group`, as it
/// stands before an 8-bit operand.
pub open spec fn arithmetic_text(group: int) -> Seq<char> {
    if group == 0 {
        "ADD A,"@
    } else if group == 1 {
        "ADC A,"@
    } else if group == 2 {
        "SUB "@
    } else if group == 3 {
        "SBC A,"@
    } else if group == 4 {
        "AND "@
    } else if group == 5 {
        "XOR A,"@
    } else if group == 6 {
        "OR "@
    } else {
        "CP "@
    }
}

/// The forms of the opcodes from `80` to `BF`: an arithmetic or logic
/// operation on the accumulator and an 8-bit operand. `AF` is written with
/// one operand.
pub open spec fn arithmetic_form(opcode: u8) -> Form {
    if opcode == 0xAF {
        plain_form("XOR A"@)
    } else {
        plain_form(arithmetic_text((opcode - 0x80) / 8) + register_text(opcode as int % 8))
    }
}

/// The forms of the opcodes from `C0`: returns, jumps, calls, restarts, stack
/// and exchange operations, and arithmetic on an immediate byte. `ED` and the
/// prefix bytes have no instruction of their own here.
pub open spec fn high_form(opcode: u8) -> Form {
    match opcode {
        0xC0 => plain_form("RET NZ"@),
        0xC1 => plain_form("POP BC"@),
        0xC2 => leading_form("JP NZ,"@, Operand::Word),
        0xC3 => leading_form("JP "@, Operand::Word),
        0xC4 => leading_form("CALL NZ,"@, Operand::Word),
        0xC5 => plain_form("PUSH BC"@),
        0xC6 => leading_form("ADD A,"@, Operand::Byte),
        0xC7 => plain_form("RST 00H"@),
        0xC8 => plain_form("RET Z"@),
        0xC9 => plain_form("RET"@),
        0xCA => leading_form("JP Z,"@, Operand::Word),
        0xCC => leading_form("CALL Z,"@, Operand::Word),
        0xCD => leading_form("CALL "@, Operand::Word),
        0xCE => leading_form("ADC A,"@, Operand::Byte),
        0xCF => plain_form("RST 08H"@),
        0xD0 => plain_form("RET NC"@),
        0xD1 => plain_form("POP DE"@),
        0xD2 => leading_form("JP NC,"@, Operand::Word),
        0xD3 => around_form("OUT ("@, Operand::Byte, "),A"@),
        0xD4 => leading_form("CALL NC,"@, Operand::Word),
        0xD5 => plain_form("PUSH DE"@),
        0xD6 => leading_form("SUB "@, Operand::Byte),
        0xD7 => plain_form("RST 10H"@),
        0xD8 => plain_form("RET C"@),
        0xD9 => plain_form("EXX"@),
        0xDA => leading_form("JP C,"@, Operand::Word),
        0xDB => around_form("IN A,("@, Operand::Byte, ")"@),
        0xDC => leading_form("CALL C,"@, Operand::Word),
        0xDE => leading_form("SBC A,"@, Operand::Byte),
        0xDF => plain_form("RST 18H"@),
        0xE0 => plain_form("RET PO"@),
        0xE1 => plain_form("POP HL"@),
        0xE2 => leading_form("JP PO,"@, Operand::Word),
        0xE3 => plain_form("EX (SP),HL"@),
        0xE4 => leading_form("CALL PO,"@, Operand::Word),
        0xE5 => plain_form("PUSH HL"@),
        0xE6 => leading_form("AND "@, Operand::Byte),
        0xE7 => plain_form("RST 20H"@),
        0xE8 => plain_form("RET PE"@),
        0xE9 => plain_form("JP (HL)"@),
        0xEA => leading_form("JP PE,"@, Operand::Word),
        0xEB => plain_form("EX DE,HL"@),
        0xEC => leading_form("CALL PE,"@, Operand::Word),
        0xEE => leading_form("XOR "@, Operand::Byte),
        0xEF => plain_form("RST 28H"@),
        0xF0 => plain_form("RET P"@),
        0xF1 => plain_form("POP AF"@),
        0xF2 => leading_form("JP P,"@, Operand::Word),
        0xF3 => plain_form("DI"@),
        0xF4 => leading_form("CALL P,"@, Operand::Word),
        0xF5 => plain_form("PUSH AF"@),
        0xF6 => leading_form("OR "@, Operand::Byte),
        0xF7 => plain_form("RST 30H"@),
        0xF8 => plain_form("RET M"@),
        0xF9 => plain_form("LD SP,HL"@),
        0xFA => leading_form("JP M,"@, Operand::Word),
        0xFB => plain_form("EI"@),
        0xFC => leading_form("CALL M,"@, Operand::Word),
        0xFE => leading_form("CP "@, Operand::Byte),
        0xFF => plain_form("RST 38H"@),
        _ => unknown_form(),
    }
}

/// The form that the opcode byte `opcode` selects by itself.
pub open spec fn primary_form(opcode: u8) -> Form {
    if opcode < 0x40 {
        low_form(opcode)
    } else if opcode < 0x80 {
        load_form(opcode)
    } else if opcode < 0xC0 {
        arithmetic_form(opcode)
    } else {
        high_form(opcode)
    }
}

/// The template of an instruction without operand.
fn plain(text: &str) -> (t: Template)
    ensures
        t@ == plain_form(text@),
{
    Template::plain(String::from_str(text))
}

/// The template of an instruction whose operand ends the mnemonic.
fn leading(head: &str, operand: Operand) -> (t: Template)
    ensures
        t@ == leading_form(head@, operand),
{
    Template::leading(String::from_str(head), operand)
}

/// The template of an instruction whose operand stands inside the mnemonic.
fn around(head: &str, operand: Operand, tail: &str) -> (t: Template)
    ensures
        t@ == around_form(head@, operand, tail@),
{
    Template::around(String::from_str(head), operand, String::from_str(tail))
}

/// Whether the byte `opcode` leads into a second table.
pub fn leads_to_table(opcode: u8) -> (b: bool)
    ensures
        b == is_prefix(opcode),
{
    opcode == 0xCB || opcode == 0xDD || opcode == 0xFD
}

/// Looks up an opcode below `40`.
fn low_template(opcode: u8) -> (t: Template)
    ensures
        t@ == low_form(opcode),
{
    match opcode {
        0x00 => plain("NOP"),
        0x01 => leading("LD BC,", Operand::Word),
        0x02 => plain("LD (BC),A"),
        0x03 => plain("INC BC"),
        0x04 => plain("INC B"),
        0x05 => plain("DEC B"),
        0x06 => leading("LD B,", Operand::Byte),
        0x07 => plain("RLCA"),
        0x08 => plain("EX AF,AF'"),
        0x09 => plain("ADD HL,BC"),
        0x0A => plain("LD A,(BC)"),
        0x0B => plain("DEC BC"),
        0x0C => plain("INC C"),
        0x0D => plain("DEC C"),
        0x0E => leading("LD C,", Operand::Byte),
        0x0F => plain("RRCA"),
        0x10 => leading("DJNZ ", Operand::Byte),
        0x11 => leading("LD DE,", Operand::Word),
        0x12 => plain("LD (DE),A"),
        0x13 => plain("INC DE"),
        0x14 => plain("INC D"),
        0x15 => plain("DEC D"),
        0x16 => leading("LD D,", Operand::Byte),
        0x17 => plain("RLA"),
        0x18 => leading("JR ", Operand::Byte),
        0x19 => plain("ADD HL,DE"),
        0x1A => plain("LD A,(DE)"),
        0x1B => plain("DEC DE"),
        0x1C => plain("INC E"),
        0x1D => plain("DEC E"),
        0x1E => leading("LD E,", Operand::Byte),
        0x1F => plain("RRA"),
        0x20 => leading("JR NZ,", Operand::Byte),
        0x21 => leading("LD HL,", Operand::Word),
        0x22 => around("LD (", Operand::Word, "),HL"),
        0x23 => plain("INC HL"),
        0x24 => plain("INC H"),
        0x25 => plain("DEC H"),
        0x26 => leading("LD H,", Operand::Byte),
        0x27 => plain("DAA"),
        0x28 => leading("JR Z,", Operand::Byte),
        0x29 => plain("ADD HL,HL"),
        0x2A => around("LD HL,(", Operand::Word, ")"),
        0x2B => plain("DEC HL"),
        0x2C => plain("INC L"),
        0x2D => plain("DEC L"),
        0x2E => leading("LD L,", Operand::Byte),
        0x2F => plain("CPL"),
        0x30 => leading("JR NC,", Operand::Byte),
        0x31 => leading("LD SP,", Operand::Word),
        0x32 => around("LD (", Operand::Word, "),A"),
        0x33 => plain("INC SP"),
        0x34 => plain("INC (HL)"),
        0x35 => plain("DEC (HL)"),
        0x36 => leading("LD (HL),", Operand::Byte),
        0x37 => plain("SCF"),
        0x38 => leading("JR C,", Operand::Byte),
        0x39 => plain("LD HL,SP"),
        0x3A => around("LD A,(", Operand::Word, ")"),
        0x3B => plain("DEC SP"),
        0x3C => plain("INC A"),
        0x3D => plain("DEC A"),
        0x3E => leading("LD A,", Operand::Byte),
        0x3F => plain("CCF"),
        _ => Template::unknown(),
    }
}

/// Looks up an opcode from `40` to `7F`.
fn load_template(opcode: u8) -> (t: Template)
    requires
        0x40 <= opcode < 0x80,
    ensures
        t@ == load_form(opcode),
{
    if opcode == 0x76 {
        return plain("HALT");
    }
    let mut text = String::from_str("LD ");
    text.append(register_name((opcode - 0x40) / 8));
    text.append(",");
    text.append(register_name(opcode % 8));
    Template::plain(text)
}

/// The name of the arithmetic or logic operation of number `group`.
fn arithmetic_name(group: u8) -> (s: &'static str)
    requires
        group < 8,
    ensures
        s@ == arithmetic_text(group as int),
{
    match group {
        0 => "ADD A,",
        1 => "ADC A,",
        2 => "SUB ",
        3 => "SBC A,",
        4 => "AND ",
        5 => "XOR A,",
        6 => "OR ",
        _ => "CP ",
    }
}

/// Looks up an opcode from `80` to `BF`.
fn arithmetic_template(opcode: u8) -> (t: Template)
    requires
        0x80 <= opcode < 0xC0,
    ensures
        t@ == arithmetic_form(opcode),
{
    if opcode == 0xAF {
        return plain("XOR A");
    }
    let mut text = String::from_str(arithmetic_name((opcode - 0x80) / 8));
    text.append(register_name(opcode % 8));
    Template::plain(text)
}

/// Looks up an opcode from `C0`.
fn high_template(opcode: u8) -> (t: Template)
    ensures
        t@ == high_form(opcode),
{
    match opcode {
        0xC0 => plain("RET NZ"),
        0xC1 => plain("POP BC"),
        0xC2 => leading("JP NZ,", Operand::Word),
        0xC3 => leading("JP ", Operand::Word),
        0xC4 => leading("CALL NZ,", Operand::Word),
        0xC5 => plain("PUSH BC"),
        0xC6 => leading("ADD A,", Operand::Byte),
        0xC7 => plain("RST 00H"),
        0xC8 => plain("RET Z"),
        0xC9 => plain("RET"),
        0xCA => leading("JP Z,", Operand::Word),
        0xCC => leading("CALL Z,", Operand::Word),
        0xCD => leading("CALL ", Operand::Word),
        0xCE => leading("ADC A,", Operand::Byte),
        0xCF => plain("RST 08H"),
        0xD0 => plain("RET NC"),
        0xD1 => plain("POP DE"),
        0xD2 => leading("JP NC,", Operand::Word),
        0xD3 => around("OUT (", Operand::Byte, "),A"),
        0xD4 => leading("CALL NC,", Operand::Word),
        0xD5 => plain("PUSH DE"),
        0xD6 => leading("SUB ", Operand::Byte),
        0xD7 => plain("RST 10H"),
        0xD8 => plain("RET C"),
        0xD9 => plain("EXX"),
        0xDA => leading("JP C,", Operand::Word),
        0xDB => around("IN A,(", Operand::Byte, ")"),
        0xDC => leading("CALL C,", Operand::Word),
        0xDE => leading("SBC A,", Operand::Byte),
        0xDF => plain("RST 18H"),
        0xE0 => plain("RET PO"),
        0xE1 => plain("POP HL"),
        0xE2 => leading("JP PO,", Operand::Word),
        0xE3 => plain("EX (SP),HL"),
        0xE4 => leading("CALL PO,", Operand::Word),
        0xE5 => plain("PUSH HL"),
        0xE6 => leading("AND ", Operand::Byte),
        0xE7 => plain("RST 20H"),
        0xE8 => plain("RET PE"),
        0xE9 => plain("JP (HL)"),
        0xEA => leading("JP PE,", Operand::Word),
        0xEB => plain("EX DE,HL"),
        0xEC => leading("CALL PE,", Operand::Word),
        0xEE => leading("XOR ", Operand::Byte),
        0xEF => plain("RST 28H"),
        0xF0 => plain("RET P"),
        0xF1 => plain("POP AF"),
        0xF2 => leading("JP P,", Operand::Word),
        0xF3 => plain("DI"),
        0xF4 => leading("CALL P,", Operand::Word),
        0xF5 => plain("PUSH AF"),
        0xF6 => leading("OR ", Operand::Byte),
        0xF7 => plain("RST 30H"),
        0xF8 => plain("RET M"),
        0xF9 => plain("LD SP,HL"),
        0xFA => leading("JP M,", Operand::Word),
        0xFB => plain("EI"),
        0xFC => leading("CALL M,", Operand::Word),
        0xFE => leading("CP ", Operand::Byte),
        0xFF => plain("RST 38H"),
        _ => Template::unknown(),
    }
}

/// Looks up the template that the opcode byte `opcode` selects by itself.
/// Every byte has one; `ED`, and the prefix bytes, which the decoder never
/// looks up here, have the one for unknown instructions.
pub fn primary_template(opcode: u8) -> (t: Template)
    ensures
        t@ == primary_form(opcode),
{
    if opcode < 0x40 {
        low_template(opcode)
    } else if opcode < 0x80 {
        load_template(opcode)
    } else if opcode < 0xC0 {
        arithmetic_template(opcode)
    } else {
        high_template(opcode)
    }
}

} // verus!
