//! Mnemonic templates: the fixed text of an instruction and the kind of
//! operand that follows its opcode.

use vstd::prelude::*;
use crate::format::{hex_byte_text, hex_word_text, signed_text};

verus! {

/// How the bytes that follow an opcode are read and rendered.
#[derive(Clone, Copy, Debug, PartialEq, Eq, Structural)]
pub enum Operand {
    /// No operand bytes.
    Absent,
    /// One byte, rendered as an unsigned hexadecimal byte.
    Byte,
    /// Two bytes, low byte first, rendered as an unsigned hexadecimal word.
    Word,
    /// One byte, rendered as a signed decimal displacement.
    Displacement,
    /// A displacement byte, the text `),`, then an unsigned byte.
    DisplacementByte,
}

/// The mathematical content of a template.
pub struct Form {
    /// The text before the operand.
    pub head: Seq<char>,
    /// The kind of operand.
    pub operand: Operand,
    /// The text after the operand.
    pub tail: Seq<char>,
}

/// A mnemonic template as the decoder holds it.
pub struct Template {
    /// The text before the operand.
    pub head: String,
    /// The kind of operand.
    pub operand: Operand,
    /// The text after the operand.
    pub tail: String,
}

impl View for Template {
    type V = Form;

    open spec fn view(&self) -> Form {
        Form { head: self.head@, operand: self.operand, tail: self.tail@ }
    }
}

/// The form of an instruction without operand.
pub open spec fn plain_form(text: Seq<char>) -> Form {
    Form { head: text, operand: Operand::Absent, tail: Seq::empty() }
}

/// The form of an instruction whose operand ends the mnemonic.
pub open spec fn leading_form(head: Seq<char>, operand: Operand) -> Form {
    Form { head, operand, tail: Seq::empty() }
}

/// The form of an instruction whose operand stands inside the mnemonic.
pub open spec fn around_form(head: Seq<char>, operand: Operand, tail: Seq<char>) -> Form {
    Form { head, operand, tail }
}

/// The form that stands for every byte combination without an instruction.
pub open spec fn unknown_form() -> Form {
    plain_form("Unknown"@)
}

/// The number of bytes that an operand of this kind occupies.
pub open spec fn operand_len(operand: Operand) -> nat {
    match operand {
        Operand::Absent => 0,
        Operand::Byte => 1,
        Operand::Word => 2,
        Operand::Displacement => 1,
        Operand::DisplacementByte => 2,
    }
}

/// The 16-bit value of two bytes, the first being the low one.
pub open spec fn word_value(low: u8, high: u8) -> u16 {
    (low + 256 * high) as u16
}

/// The rendered operand, `bytes` being the operand's bytes in stream order.
pub open spec fn operand_text(operand: Operand, bytes: Seq<u8>) -> Seq<char> {
    match operand {
        Operand::Absent => Seq::empty(),
        Operand::Byte => hex_byte_text(bytes[0]),
        Operand::Word => hex_word_text(word_value(bytes[0], bytes[1])),
        Operand::Displacement => signed_text(bytes[0]),
        Operand::DisplacementByte => signed_text(bytes[0]) + seq![')', ','] + hex_byte_text(
            bytes[1],
        ),
    }
}

/// The mnemonic of an instruction of this form with these operand bytes.
pub open spec fn mnemonic_text(form: Form, bytes: Seq<u8>) -> Seq<char> {
    form.head + operand_text(form.operand, bytes) + form.tail
}

impl Template {
    /// The template of an instruction without operand.
    pub fn plain(text: String) -> (t: Template)
        ensures
            t@ == plain_form(text@),
    {
        Template { head: text, operand: Operand::Absent, tail: String::new() }
    }

    /// The template of an instruction whose operand ends the mnemonic.
    pub fn leading(head: String, operand: Operand) -> (t: Template)
        ensures
            t@ == leading_form(head@, operand),
    {
        Template { head, operand, tail: String::new() }
    }

    /// The template of an instruction whose operand stands inside the
    /// mnemonic.
    pub fn around(head: String, operand: Operand, tail: String) -> (t: Template)
        ensures
            t@ == around_form(head@, operand, tail@),
    {
        Template { head, operand, tail }
    }

    /// The template for every byte combination without an instruction.
    pub fn unknown() -> (t: Template)
        ensures
            t@ == unknown_form(),
    {
        Template::plain(String::from_str("Unknown"))
    }
}

} // verus!
