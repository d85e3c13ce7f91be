//! The names of the eight 8-bit operands that three bits of an opcode select.

use vstd::prelude::*;

verus! {

/// The operand that the three-bit value `r` selects: `B`, `C`, `D`, `E`, `H`,
/// `L`, `(HL)`, `A`.
pub open spec fn register_text(r: int) -> Seq<char> {
    if r == 0 {
        "B"@
    } else if r == 1 {
        "C"@
    } else if r == 2 {
        "D"@
    } else if r == 3 {
        "E"@
    } else if r == 4 {
        "H"@
    } else if r == 5 {
        "L"@
    } else if r == 6 {
        "(HL)"@
    } else {
        "A"@
    }
}

/// The name of the operand that the three-bit value `r` selects.
pub fn register_name(r: u8) -> (s: &'static str)
    requires
        r < 8,
    ensures
        s@ == register_text(r as int),
{
    match r {
        0 => "B",
        1 => "C",
        2 => "D",
        3 => "E",
        4 => "H",
        5 => "L",
        6 => "(HL)",
        _ => "A",
    }
}

} // verus!
