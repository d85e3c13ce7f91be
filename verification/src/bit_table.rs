//! The instructions behind the prefix byte `CB`: rotates and shifts, and the
//! test, reset and set of a single bit.

use vstd::prelude::*;
use crate::format::{digit_char, digit_str};
use crate::register::{register_name, register_text};
use crate::template::{plain_form, Form, Template};

verus! {

/// The name, with the blank after it, of the rotate or shift that the group
/// number `group` selects. Group 6 has none.
pub open spec fn rotate_text(group: int) -> Seq<char> {
    if group == 0 {
        "RLC "@
    } else if group == 1 {
        "RRC "@
    } else if group == 2 {
        "RL "@
    } else if group == 3 {
        "RR "@
    } else if group == 4 {
        "SLA "@
    } else if group == 5 {
        "SRA "@
    } else {
        "SRL "@
    }
}

/// Whether the byte `second` after `CB` stands for an instruction.
pub open spec fn bit_assigned(second: u8) -> bool {
    second / 8 != 6
}

/// The mnemonic for the byte `second` after `CB`: the operation that the
/// upper five bits select, the bit number where it has one, and the operand
/// that the lower three bits select.
pub open spec fn bit_text(second: u8) -> Seq<char> {
    let group = second as int / 8;
    let operand = register_text(second as int % 8);
    if group < 8 {
        rotate_text(group) + operand
    } else if group < 16 {
        "BIT "@ + seq![digit_char(group - 8)] + ","@ + operand
    } else if group < 24 {
        "RES "@ + seq![digit_char(group - 16)] + ","@ + operand
    } else {
        "SET "@ + seq![digit_char(group - 24)] + ","@ + operand
    }
}

/// The form for the byte `second` after `CB`, if it stands for an
/// instruction.
pub open spec fn bit_form(second: u8) -> Option<Form> {
    if bit_assigned(second) {
        Some(plain_form(bit_text(second)))
    } else {
        None
    }
}

/// The name of the rotate or shift of group `group`.
fn rotate_name(group: u8) -> (s: &'static str)
    requires
        group < 8,
        group != 6,
    ensures
        s@ == rotate_text(group as int),
{
    match group {
        0 => "RLC ",
        1 => "RRC ",
        2 => "RL ",
        3 => "RR ",
        4 => "SLA ",
        5 => "SRA ",
        _ => "SRL ",
    }
}

/// Looks up the byte `second` after `CB`.
pub fn bit_template(second: u8) -> (t: Option<Template>)
    ensures
        t is Some == bit_form(second) is Some,
        t is Some ==> t->0@ == bit_form(second)->0,
{
    let selector: u8 = second & 0xF8;
    let register: u8 = second & 0x07;
    assert(second & 0x07 == second % 8) by (bit_vector);
    assert(second & 0xF8 == (second / 8) * 8) by (bit_vector);
    let group: u8 = selector / 8;
    if group == 6 {
        return None;
    }
    let mut text = String::new();
    if group < 8 {
        text.append(rotate_name(group));
    } else {
        if group < 16 {
            text.append("BIT ");
        } else if group < 24 {
            text.append("RES ");
        } else {
            text.append("SET ");
        }
        text.append(digit_str(group % 8));
        text.append(",");
    }
    text.append(register_name(register));
    assert(text@ =~= bit_text(second));
    Some(Template::plain(text))
}

} // verus!
