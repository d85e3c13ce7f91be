//! Laws that hold across calls of the decoder.

use vstd::prelude::*;
use crate::decode::{
    lies_in, record_at, records_from, step_at, truncation_from, Disassemble, Record, Step,
};

verus! {

/// Decoding is repeatable: two disassemblers that have each decoded the same
/// image from its first byte to its end hold the same records, and the same
/// position, if any, at which a truncated instruction ended the run.
pub proof fn lemma_decoding_repeats(first: Disassemble, second: Disassemble)
    requires
        first.decoded_from_start(),
        second.decoded_from_start(),
        first.image() == second.image(),
    ensures
        first.records() == second.records(),
        truncation_from(first.image(), 0) == truncation_from(second.image(), 0),
{
}

/// Every step that finds an instruction moves on by the bytes of that
/// instruction, at least one and at most four, and stays inside the image.
pub proof fn lemma_step_advances(image: Seq<u8>, pos: int)
    requires
        0 <= pos < image.len(),
    ensures
        step_at(image, pos) matches Step::Instruction { len, mnemonic } ==> 1 <= len <= 4 && pos
            + len <= image.len(),
{
}

/// The records of an image are laid end to end: each lies in the image, the
/// first starts at `pos`, and each next one starts where the one before it
/// ends.
pub proof fn lemma_records_are_contiguous(image: Seq<u8>, pos: int)
    requires
        0 <= pos <= image.len(),
    ensures
        forall|i: int|
            0 <= i < records_from(image, pos).len() ==> lies_in(
                #[trigger] records_from(image, pos)[i],
                image,
            ),
        records_from(image, pos).len() > 0 ==> records_from(image, pos)[0].offset == pos,
        forall|i: int|
            0 <= i < records_from(image, pos).len() - 1 ==> (#[trigger] records_from(
                image,
                pos,
            )[i + 1]).offset == records_from(image, pos)[i].offset + records_from(
                image,
                pos,
            )[i].bytes.len(),
    decreases image.len() - pos,
{
    if pos < image.len() {
        lemma_step_advances(image, pos);
        match step_at(image, pos) {
            Step::Instruction { len, mnemonic } => {
                let head = record_at(image, pos, len, mnemonic);
                let rest = records_from(image, pos + len);
                lemma_records_are_contiguous(image, pos + len);
                assert(records_from(image, pos) == seq![head] + rest);
                assert(lies_in(head, image));
                assert forall|i: int| 0 <= i < records_from(image, pos).len() implies lies_in(
                    #[trigger] records_from(image, pos)[i],
                    image,
                ) by {
                    if i > 0 {
                        assert(records_from(image, pos)[i] == rest[i - 1]);
                    }
                }
                assert forall|i: int| 0 <= i < records_from(image, pos).len() - 1 implies (
                #[trigger] records_from(image, pos)[i + 1]).offset == records_from(
                    image,
                    pos,
                )[i].offset + records_from(image, pos)[i].bytes.len() by {
                    assert(records_from(image, pos)[i + 1] == rest[i]);
                    if i > 0 {
                        assert(records_from(image, pos)[i] == rest[i - 1]);
                        assert(rest[i - 1 + 1].offset == rest[i - 1].offset + rest[i
                            - 1].bytes.len());
                    } else {
                        assert(records_from(image, pos)[0] == head);
                        assert(head.bytes.len() == len);
                    }
                }
            },
            Step::Truncated => {},
        }
    }
}

} // verus!
