//! The byte cursor over a binary image, the decoder that turns the bytes at
//! the cursor into one instruction record, and the loop that decodes an
//! image to its end.

use vstd::prelude::*;
use crate::bit_table::{bit_form, bit_template};
use crate::format::{
    format_hex_byte, format_hex_word, format_signed, hex_byte_text, hex_word_text, signed_text,
};
use crate::index_table::{index_form, index_name, index_template, index_text};
use crate::primary::{is_prefix, leads_to_table, primary_form, primary_template};
use crate::template::{
    mnemonic_text, operand_len, operand_text, unknown_form, word_value, Form, Operand, Template,
};

verus! {

/// The mathematical content of an instruction record.
pub struct Record {
    /// The position in the image at which the instruction starts.
    pub offset: nat,
    /// The rendered instruction.
    pub mnemonic: Seq<char>,
    /// The bytes of the instruction, opcode first.
    pub bytes: Seq<u8>,
}

/// One disassembled instruction.
#[derive(Clone, Debug)]
pub struct DasmResult {
    /// The position in the image at which the instruction starts.
    pub offset: usize,
    /// The rendered instruction.
    pub mnemonic: String,
    /// The bytes of the instruction, opcode first.
    pub opcodes_data: Vec<u8>,
}

impl View for DasmResult {
    type V = Record;

    open spec fn view(&self) -> Record {
        Record { offset: self.offset as nat, mnemonic: self.mnemonic@, bytes: self.opcodes_data@ }
    }
}

impl DasmResult {
    /// A record at offset 0 with no text and no bytes.
    pub fn new() -> (r: Self)
        ensures
            r@ == (Record { offset: 0, mnemonic: Seq::empty(), bytes: Seq::empty() }),
    {
        DasmResult { offset: 0, mnemonic: String::new(), opcodes_data: Vec::new() }
    }
}

/// The mathematical content of a cut-short instruction.
pub struct Fragment {
    /// The position in the image at which the instruction starts.
    pub offset: nat,
    /// The bytes from there to the end of the image.
    pub bytes: Seq<u8>,
}

/// An instruction that needs more bytes than the image has left.
#[derive(Clone, Debug)]
pub struct Truncated {
    /// The position in the image at which the instruction starts.
    pub offset: usize,
    /// The bytes from there to the end of the image.
    pub opcodes_data: Vec<u8>,
}

impl View for Truncated {
    type V = Fragment;

    open spec fn view(&self) -> Fragment {
        Fragment { offset: self.offset as nat, bytes: self.opcodes_data@ }
    }
}

/// What one decoding step finds at a position of an image.
pub enum Step {
    /// A whole instruction of `len` bytes.
    Instruction { len: nat, mnemonic: Seq<char> },
    /// An instruction that needs more bytes than the image has left.
    Truncated,
}

/// The number of bytes that select the instruction: two behind a prefix
/// byte, else one.
pub open spec fn opcode_len(opcode: u8) -> nat {
    if is_prefix(opcode) {
        2
    } else {
        1
    }
}

/// The form for the byte `second` behind the prefix byte `prefix`, if that
/// pair stands for an instruction.
pub open spec fn secondary_form(prefix: u8, second: u8) -> Option<Form> {
    if prefix == 0xCB {
        bit_form(second)
    } else {
        index_form(index_text(prefix), second)
    }
}

/// The form of the instruction whose opcode starts at `pos`. Behind a prefix
/// byte, a second byte without instruction gives the form for unknown
/// instructions.
pub open spec fn form_at(image: Seq<u8>, pos: int) -> Form {
    if is_prefix(image[pos]) {
        match secondary_form(image[pos], image[pos + 1]) {
            Some(form) => form,
            None => unknown_form(),
        }
    } else {
        primary_form(image[pos])
    }
}

/// What decoding finds at `pos`: the instruction whose opcode and operand
/// bytes all lie in the image, or a truncation.
pub open spec fn step_at(image: Seq<u8>, pos: int) -> Step {
    let operand_start = pos + opcode_len(image[pos]);
    if operand_start > image.len() {
        Step::Truncated
    } else {
        let form = form_at(image, pos);
        let end = operand_start + operand_len(form.operand);
        if end > image.len() {
            Step::Truncated
        } else {
            Step::Instruction {
                len: (end - pos) as nat,
                mnemonic: mnemonic_text(form, image.subrange(operand_start, end)),
            }
        }
    }
}

/// The record of the instruction of `len` bytes and text `mnemonic` at `pos`.
pub open spec fn record_at(image: Seq<u8>, pos: int, len: nat, mnemonic: Seq<char>) -> Record {
    Record { offset: pos as nat, mnemonic, bytes: image.subrange(pos, pos + len) }
}

/// The records of the instructions from `pos` on, in program order, up to the
/// end of the image or to the first truncation.
pub open spec fn records_from(image: Seq<u8>, pos: int) -> Seq<Record>
    decreases image.len() - pos,
{
    if 0 <= pos < image.len() {
        match step_at(image, pos) {
            Step::Instruction { len, mnemonic } => seq![record_at(image, pos, len, mnemonic)]
                + records_from(image, pos + len),
            Step::Truncated => Seq::empty(),
        }
    } else {
        Seq::empty()
    }
}

/// The position of the truncated instruction that decoding from `pos` on
/// runs into, if there is one.
pub open spec fn truncation_from(image: Seq<u8>, pos: int) -> Option<int>
    decreases image.len() - pos,
{
    if 0 <= pos < image.len() {
        match step_at(image, pos) {
            Step::Instruction { len, mnemonic } => truncation_from(image, pos + len),
            Step::Truncated => Some(pos),
        }
    } else {
        None
    }
}

/// The contents of the records of a list.
pub open spec fn records_of(list: Seq<DasmResult>) -> Seq<Record> {
    list.map_values(|r: DasmResult| r@)
}

/// Whether the bytes of a record are those of a non-empty stretch of the
/// image that starts at the record's offset.
pub open spec fn lies_in(record: Record, image: Seq<u8>) -> bool {
    &&& record.bytes.len() >= 1
    &&& record.offset + record.bytes.len() <= image.len()
    &&& record.bytes == image.subrange(
        record.offset as int,
        (record.offset + record.bytes.len()) as int,
    )
}

/// A disassembler: a binary image, the cursor into it, the bytes fetched for
/// the instruction being decoded, and the records decoded so far.
pub struct Disassemble {
    org_address: usize,
    read_address: usize,
    bin_data: Vec<u8>,
    result: Vec<DasmResult>,
    pending: DasmResult,
}

impl Disassemble {
    /// The binary image.
    pub closed spec fn image(&self) -> Seq<u8> {
        self.bin_data@
    }

    /// The cursor: the position of the next byte to fetch.
    pub closed spec fn position(&self) -> nat {
        self.read_address as nat
    }

    /// The records decoded so far, in program order.
    pub closed spec fn records(&self) -> Seq<Record> {
        records_of(self.result@)
    }

    /// The address at which the image is taken to be loaded.
    pub closed spec fn org(&self) -> nat {
        self.org_address as nat
    }

    /// The position at which the latest decoding step started.
    pub closed spec fn step_start(&self) -> nat {
        self.pending.offset as nat
    }

    /// The bytes fetched since the latest decoding step started.
    pub closed spec fn step_bytes(&self) -> Seq<u8> {
        self.pending.opcodes_data@
    }

    /// The invariant of a disassembler: the cursor lies in the image or at
    /// its end, the fetched bytes are those from the start of the step to
    /// the cursor, and every record lies in the image.
    pub closed spec fn wf(&self) -> bool {
        &&& self.read_address <= self.bin_data.len()
        &&& self.pending.offset <= self.read_address
        &&& self.pending.opcodes_data@ == self.bin_data@.subrange(
            self.pending.offset as int,
            self.read_address as int,
        )
        &&& forall|i: int|
            0 <= i < self.result.len() ==> lies_in(#[trigger] self.result[i]@, self.bin_data@)
    }

    /// Whether `other` has the image, the load address and the records of
    /// `self`.
    pub open spec fn same_program(&self, other: &Self) -> bool {
        &&& other.image() == self.image()
        &&& other.org() == self.org()
        &&& other.records() == self.records()
    }

    /// Whether the disassembler has decoded its image from the first byte
    /// to the end: the cursor has left the image, and the records are those
    /// of the instructions of the image in program order.
    pub open spec fn decoded_from_start(&self) -> bool {
        &&& self.position() >= self.image().len()
        &&& self.records() == records_from(self.image(), 0)
    }

    /// What the invariant says, over the public view of a disassembler.
    pub proof fn lemma_wf(&self)
        requires
            self.wf(),
        ensures
            self.step_start() <= self.position() <= self.image().len(),
            self.step_bytes() == self.image().subrange(
                self.step_start() as int,
                self.position() as int,
            ),
            forall|i: int|
                0 <= i < self.records().len() ==> lies_in(#[trigger] self.records()[i], self.image()),
    {
    }

    /// A disassembler over `bytes`, with the cursor at the start, no record
    /// and the load address 0. Nothing is decoded yet.
    pub fn load(bytes: Vec<u8>) -> (d: Self)
        ensures
            d.wf(),
            d.image() == bytes@,
            d.position() == 0,
            d.records() == Seq::<Record>::empty(),
            d.org() == 0,
            d.step_start() == 0,
            d.step_bytes() == Seq::<u8>::empty(),
    {
        let d = Disassemble {
            org_address: 0,
            read_address: 0,
            bin_data: bytes,
            result: Vec::new(),
            pending: DasmResult::new(),
        };
        assert(d.records() =~= Seq::<Record>::empty());
        assert(d.pending.opcodes_data@ =~= d.bin_data@.subrange(0, 0));
        d
    }

    /// Whether the cursor has reached the end of the image.
    pub fn is_finish(&self) -> (b: bool)
        ensures
            b == (self.position() >= self.image().len()),
    {
        self.read_address >= self.bin_data.len()
    }

    /// The position of the next byte to fetch.
    pub fn read_address(&self) -> (p: usize)
        ensures
            p == self.position(),
    {
        self.read_address
    }

    /// The address at which the image is taken to be loaded.
    pub fn org_address(&self) -> (a: usize)
        ensures
            a == self.org(),
    {
        self.org_address
    }

    /// Sets the address at which the image is taken to be loaded. It changes
    /// the addresses shown for the records, and nothing of the decoding.
    pub fn set_org_address(&mut self, org: usize)
        ensures
            final(self).org() == org,
            final(self).image() == old(self).image(),
            final(self).position() == old(self).position(),
            final(self).records() == old(self).records(),
            final(self).step_start() == old(self).step_start(),
            final(self).step_bytes() == old(self).step_bytes(),
            old(self).wf() ==> final(self).wf(),
    {
        self.org_address = org;
    }

    /// The binary image.
    pub fn bin_data(&self) -> (bytes: &Vec<u8>)
        ensures
            bytes@ == self.image(),
    {
        &self.bin_data
    }

    /// The records decoded so far, in program order.
    pub fn decoded_instructions(&self) -> (list: &Vec<DasmResult>)
        ensures
            records_of(list@) == self.records(),
    {
        &self.result
    }

    /// The address shown for the position `offset` of the image: the load
    /// address plus `offset`, where that sum is a `usize`.
    pub fn display_address(&self, offset: usize) -> (a: Option<usize>)
        ensures
            match a {
                Some(address) => address == self.org() + offset,
                None => self.org() + offset > usize::MAX,
            },
    {
        self.org_address.checked_add(offset)
    }

    /// Renders a 16-bit value as a digit-led hexadecimal token.
    pub fn format_word(&self, address: u16) -> (s: String)
        ensures
            s@ == hex_word_text(address),
    {
        format_hex_word(address)
    }

    /// Renders a byte as a digit-led hexadecimal token.
    pub fn format_byte(&self, value: u8) -> (s: String)
        ensures
            s@ == hex_byte_text(value),
    {
        format_hex_byte(value)
    }

    /// Renders a byte as a signed decimal token.
    pub fn format_signed_decimal(&self, value: u8) -> (s: String)
        ensures
            s@ == signed_text(value),
    {
        format_signed(value)
    }

    /// Fetches the byte at the cursor, which lies in the image.
    fn take_byte(&mut self) -> (byte: u8)
        requires
            old(self).wf(),
            old(self).position() < old(self).image().len(),
        ensures
            final(self).wf(),
            old(self).same_program(final(self)),
            final(self).step_start() == old(self).step_start(),
            byte == old(self).image()[old(self).position() as int],
            final(self).position() == old(self).position() + 1,
            final(self).step_bytes() == old(self).step_bytes().push(byte),
    {
        let byte = self.bin_data[self.read_address];
        self.pending.opcodes_data.push(byte);
        self.read_address += 1;
        assert(self.pending.opcodes_data@ =~= self.bin_data@.subrange(
            self.pending.offset as int,
            self.read_address as int,
        ));
        byte
    }

    /// Fetches the byte at the cursor: returns it, adds it to the bytes of
    /// the current step and moves the cursor one byte on. At the end of the
    /// image there is no byte: the result is `None` and nothing changes.
    pub fn get_byte(&mut self) -> (r: Option<u8>)
        requires
            old(self).wf(),
        ensures
            final(self).wf(),
            old(self).same_program(final(self)),
            final(self).step_start() == old(self).step_start(),
            match r {
                Some(byte) => {
                    &&& old(self).position() < old(self).image().len()
                    &&& byte == old(self).image()[old(self).position() as int]
                    &&& final(self).position() == old(self).position() + 1
                    &&& final(self).step_bytes() == old(self).step_bytes().push(byte)
                },
                None => {
                    &&& old(self).position() >= old(self).image().len()
                    &&& final(self).position() == old(self).position()
                    &&& final(self).step_bytes() == old(self).step_bytes()
                },
            },
    {
        if self.read_address < self.bin_data.len() {
            Some(self.take_byte())
        } else {
            None
        }
    }

    /// Fetches two bytes and returns the 16-bit value that has the first as
    /// its low and the second as its high byte. With fewer than two bytes
    /// left the result is `None`, and a single byte that was left is fetched.
    pub fn get_word(&mut self) -> (r: Option<u16>)
        requires
            old(self).wf(),
        ensures
            final(self).wf(),
            old(self).same_program(final(self)),
            final(self).step_start() == old(self).step_start(),
            match r {
                Some(word) => {
                    &&& old(self).position() + 2 <= old(self).image().len()
                    &&& word == word_value(
                        old(self).image()[old(self).position() as int],
                        old(self).image()[old(self).position() as int + 1],
                    )
                    &&& final(self).position() == old(self).position() + 2
                },
                None => {
                    &&& old(self).position() + 2 > old(self).image().len()
                    &&& final(self).position() == old(self).image().len()
                },
            },
            final(self).step_bytes() == old(self).step_bytes() + old(self).image().subrange(
                old(self).position() as int,
                final(self).position() as int,
            ),
    {
        proof {
            self.lemma_wf();
        }
        let low: u16 = match self.get_byte() {
            Some(byte) => byte as u16,
            None => {
                assert(self.step_bytes() =~= old(self).step_bytes() + old(self).image().subrange(
                    old(self).position() as int,
                    self.position() as int,
                ));
                return None;
            },
        };
        let high: u16 = match self.get_byte() {
            Some(byte) => byte as u16,
            None => {
                assert(self.step_bytes() =~= old(self).step_bytes() + old(self).image().subrange(
                    old(self).position() as int,
                    self.position() as int,
                ));
                return None;
            },
        };
        assert(self.step_bytes() =~= old(self).step_bytes() + old(self).image().subrange(
            old(self).position() as int,
            self.position() as int,
        ));
        Some(high * 256 + low)
    }

    /// The bytes of the current step as a cut-short instruction.
    fn cut_short(&self) -> (cut: Truncated)
        ensures
            cut@ == (Fragment { offset: self.step_start(), bytes: self.step_bytes() }),
    {
        let cut = Truncated {
            offset: self.pending.offset,
            opcodes_data: self.pending.opcodes_data.clone(),
        };
        assert(cut.opcodes_data@ =~= self.pending.opcodes_data@);
        cut
    }

    /// Fetches the bytes of an operand of the given kind and renders it.
    /// Where the image ends before the operand does, the result is `None`
    /// and the bytes that were left are fetched.
    fn read_operand(&mut self, operand: Operand) -> (r: Option<String>)
        requires
            old(self).wf(),
        ensures
            final(self).wf(),
            old(self).same_program(final(self)),
            final(self).step_start() == old(self).step_start(),
            final(self).step_bytes() == old(self).step_bytes() + old(self).image().subrange(
                old(self).position() as int,
                final(self).position() as int,
            ),
            match r {
                Some(text) => {
                    &&& old(self).position() + operand_len(operand) <= old(self).image().len()
                    &&& final(self).position() == old(self).position() + operand_len(operand)
                    &&& text@ == operand_text(
                        operand,
                        old(self).image().subrange(
                            old(self).position() as int,
                            final(self).position() as int,
                        ),
                    )
                },
                None => {
                    &&& old(self).position() + operand_len(operand) > old(self).image().len()
                    &&& final(self).position() == old(self).image().len()
                },
            },
    {
        proof {
            self.lemma_wf();
            reveal_strlit("),");
        }
        let ghost image = self.image();
        let ghost from = self.position() as int;
        let ghost fetched = self.step_bytes();
        match operand {
            Operand::Absent => {
                assert(self.step_bytes() =~= fetched + image.subrange(from, from));
                Some(String::new())
            },
            Operand::Byte => {
                let value = self.get_byte();
                assert(self.step_bytes() =~= fetched + image.subrange(from, self.position() as int));
                match value {
                    Some(byte) => Some(self.format_byte(byte)),
                    None => None,
                }
            },
            Operand::Word => {
                match self.get_word() {
                    Some(word) => Some(self.format_word(word)),
                    None => None,
                }
            },
            Operand::Displacement => {
                let value = self.get_byte();
                assert(self.step_bytes() =~= fetched + image.subrange(from, self.position() as int));
                match value {
                    Some(byte) => Some(self.format_signed_decimal(byte)),
                    None => None,
                }
            },
            Operand::DisplacementByte => {
                let first = self.get_byte();
                let second = self.get_byte();
                assert(self.step_bytes() =~= fetched + image.subrange(from, self.position() as int));
                match (first, second) {
                    (Some(displacement), Some(byte)) => {
                        let mut text = self.format_signed_decimal(displacement);
                        text.append("),");
                        text.append(self.format_byte(byte).as_str());
                        assert(text@ =~= operand_text(
                            operand,
                            image.subrange(from, self.position() as int),
                        ));
                        Some(text)
                    },
                    _ => None,
                }
            },
        }
    }

    /// Looks up the template of the instruction whose first opcode byte is
    /// `opcode`, fetching the second opcode byte where `opcode` is a prefix.
    /// Where the image ends behind the prefix byte, the result is `None`.
    fn read_template(&mut self, opcode: u8) -> (r: Option<Template>)
        requires
            old(self).wf(),
            0 < old(self).position(),
            opcode == old(self).image()[old(self).position() - 1],
        ensures
            final(self).wf(),
            old(self).same_program(final(self)),
            final(self).step_start() == old(self).step_start(),
            final(self).step_bytes() == old(self).step_bytes() + old(self).image().subrange(
                old(self).position() as int,
                final(self).position() as int,
            ),
            match r {
                Some(template) => {
                    &&& final(self).position() == old(self).position() - 1 + opcode_len(opcode)
                    &&& final(self).position() <= old(self).image().len()
                    &&& template@ == form_at(old(self).image(), old(self).position() - 1)
                },
                None => {
                    &&& is_prefix(opcode)
                    &&& old(self).position() == old(self).image().len()
                    &&& final(self).position() == old(self).position()
                },
            },
    {
        proof {
            self.lemma_wf();
        }
        let ghost image = self.image();
        let ghost from = self.position() as int;
        let ghost fetched = self.step_bytes();
        if !leads_to_table(opcode) {
            assert(self.step_bytes() =~= fetched + image.subrange(from, from));
            return Some(primary_template(opcode));
        }
        let second = self.get_byte();
        assert(self.step_bytes() =~= fetched + image.subrange(from, self.position() as int));
        match second {
            Some(byte) => {
                let found = if opcode == 0xCB {
                    bit_template(byte)
                } else {
                    index_template(index_name(opcode), byte)
                };
                match found {
                    Some(template) => Some(template),
                    None => Some(Template::unknown()),
                }
            },
            None => None,
        }
    }

    /// Decodes the instruction at the cursor, which lies in the image.
    ///
    /// The step fetches the opcode, behind a prefix byte the second opcode
    /// byte, and the operand bytes that the instruction's template asks for.
    /// It then appends one record and leaves the cursor behind the
    /// instruction. Where the image ends before the instruction does, the
    /// step appends nothing, leaves the cursor at the end of the image and
    /// returns the bytes from the start of the instruction on.
    pub fn do_disassemble_one(&mut self) -> (r: Result<(), Truncated>)
        requires
            old(self).wf(),
            old(self).position() < old(self).image().len(),
        ensures
            final(self).wf(),
            final(self).image() == old(self).image(),
            final(self).org() == old(self).org(),
            final(self).step_start() == old(self).position(),
            match step_at(old(self).image(), old(self).position() as int) {
                Step::Instruction { len, mnemonic } => {
                    &&& r is Ok
                    &&& final(self).position() == old(self).position() + len
                    &&& final(self).records() == old(self).records().push(
                        record_at(old(self).image(), old(self).position() as int, len, mnemonic),
                    )
                },
                Step::Truncated => {
                    &&& r matches Err(cut)
                    &&& cut@ == (Fragment {
                        offset: old(self).position(),
                        bytes: old(self).image().subrange(
                            old(self).position() as int,
                            old(self).image().len() as int,
                        ),
                    })
                    &&& final(self).position() == old(self).image().len()
                    &&& final(self).records() == old(self).records()
                },
            },
            // An opcode without prefix and without operand takes one byte.
            ({
                let opcode = old(self).image()[old(self).position() as int];
                !is_prefix(opcode) && primary_form(opcode).operand == Operand::Absent ==> {
                    &&& r is Ok
                    &&& final(self).position() == old(self).position() + 1
                }
            }),
            // An instruction with one unsigned operand byte takes that byte
            // and its opcode, and shows the byte as a hexadecimal token.
            ({
                let image = old(self).image();
                let pos = old(self).position() as int;
                let operand_at = pos + opcode_len(image[pos]);
                let form = form_at(image, pos);
                form.operand == Operand::Byte && operand_at < image.len() ==> {
                    &&& r is Ok
                    &&& final(self).position() == operand_at + 1
                    &&& final(self).records().last().bytes.len() == opcode_len(image[pos]) + 1
                    &&& final(self).records().last().mnemonic == form.head + hex_byte_text(
                        image[operand_at],
                    ) + form.tail
                }
            }),
            // An instruction with a displacement byte takes that byte and its
            // opcode, and shows the byte as a signed decimal token.
            ({
                let image = old(self).image();
                let pos = old(self).position() as int;
                let operand_at = pos + opcode_len(image[pos]);
                let form = form_at(image, pos);
                form.operand == Operand::Displacement && operand_at < image.len() ==> {
                    &&& r is Ok
                    &&& final(self).position() == operand_at + 1
                    &&& final(self).records().last().bytes.len() == opcode_len(image[pos]) + 1
                    &&& final(self).records().last().mnemonic == form.head + signed_text(
                        image[operand_at],
                    ) + form.tail
                }
            }),
            // Behind a prefix, a second byte without instruction ends the
            // step: the two bytes make a record that says so, and the step
            // does not fail.
            ({
                let image = old(self).image();
                let pos = old(self).position() as int;
                is_prefix(image[pos]) && pos + 1 < image.len() && secondary_form(
                    image[pos],
                    image[pos + 1],
                ) is None ==> {
                    &&& r is Ok
                    &&& final(self).position() == pos + 2
                    &&& final(self).records().last().mnemonic == "Unknown"@
                    &&& final(self).records().last().bytes == image.subrange(pos, pos + 2)
                }
            }),
    {
        proof {
            self.lemma_wf();
        }
        let ghost image = self.image();
        let ghost decoded = self.records();
        let start: usize = self.read_address;
        self.pending = DasmResult {
            offset: start,
            mnemonic: String::new(),
            opcodes_data: Vec::new(),
        };
        assert(self.pending.opcodes_data@ =~= image.subrange(start as int, start as int));
        let opcode: u8 = self.take_byte();
        let template = match self.read_template(opcode) {
            Some(template) => template,
            None => {
                proof {
                    self.lemma_wf();
                }
                return Err(self.cut_short());
            },
        };
        let ghost operand_start = self.position() as int;
        let text = match self.read_operand(template.operand) {
            Some(text) => text,
            None => {
                proof {
                    self.lemma_wf();
                }
                return Err(self.cut_short());
            },
        };
        let mut mnemonic = template.head.clone();
        mnemonic.append(text.as_str());
        mnemonic.append(template.tail.as_str());
        self.pending.mnemonic = mnemonic.clone();
        let record = DasmResult {
            offset: start,
            mnemonic,
            opcodes_data: self.pending.opcodes_data.clone(),
        };
        proof {
            self.lemma_wf();
            assert(record.opcodes_data@ =~= self.pending.opcodes_data@);
            assert(record.mnemonic@ =~= mnemonic_text(
                template@,
                image.subrange(operand_start, self.position() as int),
            ));
            assert(lies_in(record@, image));
        }
        self.result.push(record);
        assert(self.records() =~= decoded.push(record@));
        Ok(())
    }

    /// Decodes instruction after instruction until the cursor reaches the
    /// end of the image. A truncated instruction ends the run: its bytes are
    /// returned, and no record is made of it.
    pub fn run(&mut self) -> (r: Result<(), Truncated>)
        requires
            old(self).wf(),
        ensures
            final(self).wf(),
            final(self).image() == old(self).image(),
            final(self).org() == old(self).org(),
            final(self).position() >= old(self).image().len(),
            final(self).records() == old(self).records() + records_from(
                old(self).image(),
                old(self).position() as int,
            ),
            match truncation_from(old(self).image(), old(self).position() as int) {
                Some(offset) => {
                    &&& r matches Err(cut)
                    &&& cut@ == (Fragment {
                        offset: offset as nat,
                        bytes: old(self).image().subrange(offset, old(self).image().len() as int),
                    })
                },
                None => r is Ok,
            },
            old(self).position() == 0 && old(self).records().len() == 0
                ==> final(self).decoded_from_start(),
    {
        let ghost image = self.image();
        let ghost from = self.position() as int;
        let ghost decoded = self.records();
        assert(decoded + records_from(image, from) =~= self.records() + records_from(
            image,
            self.position() as int,
        ));
        while !self.is_finish()
            invariant
                self.wf(),
                image == old(self).image(),
                from == old(self).position(),
                decoded == old(self).records(),
                self.image() == image,
                self.org() == old(self).org(),
                decoded + records_from(image, from) == self.records() + records_from(
                    image,
                    self.position() as int,
                ),
                truncation_from(image, from) == truncation_from(image, self.position() as int),
            decreases image.len() - self.position(),
        {
            let ghost before = self.records();
            let ghost pos = self.position() as int;
            match self.do_disassemble_one() {
                Ok(()) => {
                    assert(before + records_from(image, pos) =~= self.records() + records_from(
                        image,
                        self.position() as int,
                    ));
                },
                Err(cut) => {
                    assert(self.records() + records_from(image, pos) =~= self.records());
                    return Err(cut);
                },
            }
        }
        assert(self.records() + records_from(image, self.position() as int) =~= self.records());
        Ok(())
    }
}

} // verus!
