//! Instruction words and their decoding into operations.

use crate::ir::{
    BinaryOp, JumpCondition, JumpTarget, LoadSource, Operation, TernaryOp, UnaryOp,
};
use crate::digits::{binary_digits, push_binary};
use vstd::prelude::*;
use vstd::std_specs::convert::FromSpecImpl;

verus! {

/// Number of meaningful bits in an instruction word.
pub const WORD_BITS: u32 = 20;

/// Mask that keeps the meaningful bits of an instruction word.
pub const WORD_MASK: u32 = 0xF_FFFF;

/// A 20-bit instruction word, held in the low bits of `buffer`.
#[derive(Debug, PartialEq, Eq, Clone, Copy)]
pub struct InstructionWord {
    pub buffer: u32,
}

/// Why a bit field could not be read from an instruction word.
#[derive(Debug, PartialEq, Eq, Clone, Copy)]
pub enum BitRangeError {
    /// The requested range is empty or reaches beyond bit 19.
    InvalidBounds,
}

/// The bits `lower..=upper` of `word`, moved down to bit 0.
pub open spec fn bit_field(word: u32, lower: u32, upper: u32) -> u32
    recommends
        lower <= upper < WORD_BITS,
{
    (word >> lower) & (((1u32 << ((upper - lower + 1) as u32)) - 1) as u32)
}

/// The word that three bytes spell, most significant byte first, cut to 20 bits.
pub open spec fn word_of_bytes(bytes: [u8; 3]) -> u32 {
    ((((bytes[0] as u32) << 16) | ((bytes[1] as u32) << 8) | (bytes[2] as u32)) % 0x10_0000) as u32
}

impl InstructionWord {
    /// The instruction word in the low 20 bits of `value`.
    pub fn from_u32(value: u32) -> (word: InstructionWord)
        ensures
            word.buffer == value % 0x10_0000,
            word.buffer == value & WORD_MASK,
    {
        assert(value & 0xF_FFFF == value % 0x10_0000) by (bit_vector);
        InstructionWord { buffer: value & WORD_MASK }
    }

    /// The instruction word that three bytes spell, most significant byte
    /// first. The top four bits of the first byte are dropped.
    pub fn from_bytes(bytes: [u8; 3]) -> (word: InstructionWord)
        ensures
            word.buffer == word_of_bytes(bytes),
    {
        let b0: u32 = bytes[0] as u32;
        let b1: u32 = bytes[1] as u32;
        let b2: u32 = bytes[2] as u32;
        let joined: u32 = (b0 << 16) | (b1 << 8) | b2;
        assert(joined & 0xF_FFFF == joined % 0x10_0000) by (bit_vector);
        InstructionWord { buffer: joined & WORD_MASK }
    }

    /// The word in binary behind `0b`, without leading zeros.
    pub fn to_string(&self) -> (text: String)
        ensures
            text@ == seq!['0', 'b'] + binary_digits(self.buffer as nat),
    {
        let mut text = String::new();
        text.push('0');
        text.push('b');
        push_binary(&mut text, self.buffer);
        assert(text@ =~= seq!['0', 'b'] + binary_digits(self.buffer as nat));
        text
    }

    /// Reads the bits `lower..=upper` as a number. Fails when the range is
    /// empty or reaches beyond bit 19.
    pub fn get_bits(&self, lower: u32, upper: u32) -> (bits: Result<u32, BitRangeError>)
        ensures
            lower <= upper < WORD_BITS ==> bits == Ok::<u32, BitRangeError>(
                bit_field(self.buffer, lower, upper),
            ),
            !(lower <= upper < WORD_BITS) ==> bits == Err::<u32, BitRangeError>(
                BitRangeError::InvalidBounds,
            ),
    {
        if lower > upper || lower >= WORD_BITS || upper >= WORD_BITS {
            return Err(BitRangeError::InvalidBounds);
        }
        let width: u32 = upper - lower + 1;
        assert(1u32 << width >= 1) by (bit_vector)
            requires
                width <= 20,
        ;
        let mask: u32 = (1u32 << width) - 1;
        Ok((self.buffer >> lower) & mask)
    }
}


/// The operation selectors of the instruction set.
#[allow(non_camel_case_types)]
#[derive(Debug, PartialEq, Eq, Clone, Copy)]
pub enum Opcode {
    ADD,
    ADD3,
    ADC,
    SUB,
    SUBC,
    INC,
    DEC,
    MUL,
    TST,
    AND,
    OR,
    NOT,
    NEG,
    XOR,
    XNOR,
    SHL,
    SHR,
    MOV,
    JMP,
    JZ,
    JNZ,
    JC,
    JNC,
    JRCON,
    JZR,
    JNZR,
    JCR,
    JNCR,
    ST,
    LD,
    NOP,
    DBG,
    HLT,
    LDC,
}

impl Opcode {
    /// The number that selects this opcode in an instruction word.
    pub open spec fn code(self) -> u8 {
        match self {
            Opcode::ADD => 0x00,
            Opcode::ADD3 => 0x01,
            Opcode::ADC => 0x02,
            Opcode::SUB => 0x03,
            Opcode::SUBC => 0x04,
            Opcode::INC => 0x05,
            Opcode::DEC => 0x06,
            Opcode::MUL => 0x07,
            Opcode::TST => 0x08,
            Opcode::AND => 0x09,
            Opcode::OR => 0x0a,
            Opcode::NOT => 0x0b,
            Opcode::NEG => 0x0c,
            Opcode::XOR => 0x0d,
            Opcode::XNOR => 0x0e,
            Opcode::SHL => 0x0f,
            Opcode::SHR => 0x10,
            Opcode::MOV => 0x48,
            Opcode::JMP => 0x50,
            Opcode::JZ => 0x51,
            Opcode::JNZ => 0x52,
            Opcode::JC => 0x53,
            Opcode::JNC => 0x54,
            Opcode::JRCON => 0x58,
            Opcode::JZR => 0x59,
            Opcode::JNZR => 0x5a,
            Opcode::JCR => 0x5b,
            Opcode::JNCR => 0x5c,
            Opcode::ST => 0x68,
            Opcode::LD => 0x69,
            Opcode::NOP => 0x6c,
            Opcode::DBG => 0x7e,
            Opcode::HLT => 0x7f,
            Opcode::LDC => 0x80,
        }
    }

    /// The opcode that `code` selects, if the instruction set has one for it.
    pub open spec fn of_code(code: u8) -> Option<Opcode> {
        if exists|o: Opcode| o.code() == code {
            Some(choose|o: Opcode| o.code() == code)
        } else {
            None
        }
    }

    /// No two opcodes share a code.
    pub proof fn lemma_code_injective(a: Opcode, b: Opcode)
        requires
            a.code() == b.code(),
        ensures
            a == b,
    {
    }

    /// Looking up the code of an opcode gives that opcode back.
    pub proof fn lemma_of_code_inverts_code(o: Opcode)
        ensures
            Opcode::of_code(o.code()) == Some(o),
    {
        let found = choose|x: Opcode| x.code() == o.code();
        Opcode::lemma_code_injective(found, o);
    }

    /// The number that selects this opcode in an instruction word.
    pub fn to_code(&self) -> (code: u8)
        ensures
            code == self.code(),
    {
        match self {
            Opcode::ADD => 0x00,
            Opcode::ADD3 => 0x01,
            Opcode::ADC => 0x02,
            Opcode::SUB => 0x03,
            Opcode::SUBC => 0x04,
            Opcode::INC => 0x05,
            Opcode::DEC => 0x06,
            Opcode::MUL => 0x07,
            Opcode::TST => 0x08,
            Opcode::AND => 0x09,
            Opcode::OR => 0x0a,
            Opcode::NOT => 0x0b,
            Opcode::NEG => 0x0c,
            Opcode::XOR => 0x0d,
            Opcode::XNOR => 0x0e,
            Opcode::SHL => 0x0f,
            Opcode::SHR => 0x10,
            Opcode::MOV => 0x48,
            Opcode::JMP => 0x50,
            Opcode::JZ => 0x51,
            Opcode::JNZ => 0x52,
            Opcode::JC => 0x53,
            Opcode::JNC => 0x54,
            Opcode::JRCON => 0x58,
            Opcode::JZR => 0x59,
            Opcode::JNZR => 0x5a,
            Opcode::JCR => 0x5b,
            Opcode::JNCR => 0x5c,
            Opcode::ST => 0x68,
            Opcode::LD => 0x69,
            Opcode::NOP => 0x6c,
            Opcode::DBG => 0x7e,
            Opcode::HLT => 0x7f,
            Opcode::LDC => 0x80,
        }
    }

    /// The opcode that `code` selects, or `None` where the instruction set
    /// has none for it.
    pub fn from_code(code: u8) -> (found: Option<Opcode>)
        ensures
            found == Opcode::of_code(code),
            found matches Some(o) ==> o.code() == code,
            found is None ==> forall|o: Opcode| o.code() != code,
    {
        let found = match code {
            0x00 => Some(Opcode::ADD),
            0x01 => Some(Opcode::ADD3),
            0x02 => Some(Opcode::ADC),
            0x03 => Some(Opcode::SUB),
            0x04 => Some(Opcode::SUBC),
            0x05 => Some(Opcode::INC),
            0x06 => Some(Opcode::DEC),
            0x07 => Some(Opcode::MUL),
            0x08 => Some(Opcode::TST),
            0x09 => Some(Opcode::AND),
            0x0a => Some(Opcode::OR),
            0x0b => Some(Opcode::NOT),
            0x0c => Some(Opcode::NEG),
            0x0d => Some(Opcode::XOR),
            0x0e => Some(Opcode::XNOR),
            0x0f => Some(Opcode::SHL),
            0x10 => Some(Opcode::SHR),
            0x48 => Some(Opcode::MOV),
            0x50 => Some(Opcode::JMP),
            0x51 => Some(Opcode::JZ),
            0x52 => Some(Opcode::JNZ),
            0x53 => Some(Opcode::JC),
            0x54 => Some(Opcode::JNC),
            0x58 => Some(Opcode::JRCON),
            0x59 => Some(Opcode::JZR),
            0x5a => Some(Opcode::JNZR),
            0x5b => Some(Opcode::JCR),
            0x5c => Some(Opcode::JNCR),
            0x68 => Some(Opcode::ST),
            0x69 => Some(Opcode::LD),
            0x6c => Some(Opcode::NOP),
            0x7e => Some(Opcode::DBG),
            0x7f => Some(Opcode::HLT),
            0x80 => Some(Opcode::LDC),
            _ => None,
        };
        proof {
            match found {
                Some(o) => {
                    Opcode::lemma_of_code_inverts_code(o);
                },
                None => {
                    assert forall|o: Opcode| o.code() != code by {}
                },
            }
        }
        found
    }
}

/// The opcode byte of `word`: its low eight bits, where every value from
/// 0x80 up counts as 0x80. A load of a constant keeps four bits of its
/// constant in the low bits of that byte.
pub open spec fn opcode_of(word: u32) -> u8 {
    if bit_field(word, 0, 7) >= 0x80 {
        0x80
    } else {
        bit_field(word, 0, 7) as u8
    }
}

/// The 12-bit immediate `value`, read as a signed number in two's complement.
pub open spec fn sign_extend_12(value: u16) -> i16
    recommends
        value < 0x1000,
{
    if value < 0x800 {
        value as i16
    } else {
        (value - 0x1000) as i16
    }
}

/// The sizes of the fields of an instruction word.
pub proof fn lemma_field_bounds(word: u32)
    by (bit_vector)
    ensures
        bit_field(word, 0, 7) < 0x100,
        bit_field(word, 0, 3) < 0x10,
        bit_field(word, 4, 6) < 8,
        bit_field(word, 7, 7) < 2,
        bit_field(word, 8, 10) < 8,
        bit_field(word, 11, 13) < 8,
        bit_field(word, 14, 16) < 8,
        bit_field(word, 17, 19) < 8,
        bit_field(word, 8, 19) < 0x1000,
        (bit_field(word, 8, 19) << 4) | bit_field(word, 0, 3) < 0x1_0000,
{
}

impl InstructionWord {
    /// The first source register index: bits 8 to 10.
    pub open spec fn op_a(self) -> u8 {
        bit_field(self.buffer, 8, 10) as u8
    }

    /// The second source register index: bits 11 to 13.
    pub open spec fn op_b(self) -> u8 {
        bit_field(self.buffer, 11, 13) as u8
    }

    /// The third source register index: bits 14 to 16.
    pub open spec fn op_c(self) -> u8 {
        bit_field(self.buffer, 14, 16) as u8
    }

    /// The destination register index: bits 17 to 19.
    pub open spec fn target(self) -> u8 {
        bit_field(self.buffer, 17, 19) as u8
    }

    /// The immediate of a relative jump: bits 8 to 19.
    pub open spec fn constant12(self) -> u16 {
        bit_field(self.buffer, 8, 19) as u16
    }

    /// The immediate of a load of a constant: bits 8 to 19 above bits 0 to 3.
    pub open spec fn constant16(self) -> u16 {
        ((bit_field(self.buffer, 8, 19) << 4) | bit_field(self.buffer, 0, 3)) as u16
    }

    /// The destination register index of a load of a constant: bits 4 to 6.
    pub open spec fn load_address(self) -> u8 {
        bit_field(self.buffer, 4, 6) as u8
    }

    /// Whether bit 7, which marks a load of a constant, is set.
    pub open spec fn load(self) -> bool {
        bit_field(self.buffer, 7, 7) == 1
    }

    /// The opcode that the word's opcode byte selects; `NOP` where the
    /// instruction set has none for it.
    pub open spec fn selected_opcode(self) -> Opcode {
        match Opcode::of_code(opcode_of(self.buffer)) {
            Some(o) => o,
            None => Opcode::NOP,
        }
    }

    /// Whether the instruction set has an opcode for the word's opcode byte.
    pub open spec fn opcode_known(self) -> bool {
        Opcode::of_code(opcode_of(self.buffer)) is Some
    }

    /// The opcode byte: bits 0 to 7, where every value from 0x80 up counts
    /// as 0x80.
    pub fn opcode(&self) -> (code: u8)
        ensures
            code == opcode_of(self.buffer),
            code <= 0x80,
            bit_field(self.buffer, 0, 7) >= 0x80 ==> code == 0x80,
    {
        proof {
            lemma_field_bounds(self.buffer);
        }
        let raw: u32 = self.get_bits(0, 7).unwrap();
        if raw >= 0x80 {
            0x80
        } else {
            raw as u8
        }
    }

    /// Tells whether the instruction set has an opcode for this word.
    pub fn has_known_opcode(&self) -> (known: bool)
        ensures
            known == self.opcode_known(),
    {
        Opcode::from_code(self.opcode()).is_some()
    }

    /// The opcode of this word. An opcode byte that the instruction set does
    /// not have reads as `NOP`.
    pub fn get_opcode(&self) -> (opcode: Opcode)
        ensures
            opcode == self.selected_opcode(),
            self.opcode_known() ==> opcode.code() == opcode_of(self.buffer),
            !self.opcode_known() ==> opcode == Opcode::NOP,
    {
        match Opcode::from_code(self.opcode()) {
            Some(o) => o,
            None => Opcode::NOP,
        }
    }

    /// The first source register index.
    pub fn get_op_a(&self) -> (index: u8)
        ensures
            index == self.op_a(),
            index < 8,
    {
        proof {
            lemma_field_bounds(self.buffer);
        }
        self.get_bits(8, 10).unwrap() as u8
    }

    /// The second source register index.
    pub fn get_op_b(&self) -> (index: u8)
        ensures
            index == self.op_b(),
            index < 8,
    {
        proof {
            lemma_field_bounds(self.buffer);
        }
        self.get_bits(11, 13).unwrap() as u8
    }

    /// The third source register index.
    pub fn get_op_c(&self) -> (index: u8)
        ensures
            index == self.op_c(),
            index < 8,
    {
        proof {
            lemma_field_bounds(self.buffer);
        }
        self.get_bits(14, 16).unwrap() as u8
    }

    /// The destination register index.
    pub fn get_target(&self) -> (index: u8)
        ensures
            index == self.target(),
            index < 8,
    {
        proof {
            lemma_field_bounds(self.buffer);
        }
        self.get_bits(17, 19).unwrap() as u8
    }

    /// The 12-bit immediate of a relative jump, not yet sign-extended.
    pub fn get_constant12(&self) -> (value: u16)
        ensures
            value == self.constant12(),
            value < 0x1000,
    {
        proof {
            lemma_field_bounds(self.buffer);
        }
        self.get_bits(8, 19).unwrap() as u16
    }

    /// The 16-bit immediate of a load of a constant.
    pub fn get_constant16(&self) -> (value: u16)
        ensures
            value == self.constant16(),
    {
        proof {
            lemma_field_bounds(self.buffer);
        }
        let lower_4: u32 = self.get_bits(0, 3).unwrap();
        let upper_12: u32 = self.get_bits(8, 19).unwrap();
        ((upper_12 << 4) | lower_4) as u16
    }

    /// Whether the word is marked as a load of a constant.
    pub fn get_load(&self) -> (set: bool)
        ensures
            set == self.load(),
    {
        self.get_bits(7, 7).unwrap() == 1
    }

    /// The destination register index of a load of a constant.
    pub fn get_load_address(&self) -> (index: u8)
        ensures
            index == self.load_address(),
            index < 8,
    {
        proof {
            lemma_field_bounds(self.buffer);
        }
        self.get_bits(4, 6).unwrap() as u8
    }
}


impl InstructionWord {
    /// The operands of an operation with one source register.
    pub open spec fn unary_op(self) -> UnaryOp {
        UnaryOp { target: self.target() as usize, source_a: self.op_a() as usize }
    }

    /// The operands of an operation with two source registers.
    pub open spec fn binary_op(self) -> BinaryOp {
        BinaryOp {
            target: self.target() as usize,
            source_a: self.op_a() as usize,
            source_b: self.op_b() as usize,
        }
    }

    /// The operands of an operation with three source registers.
    pub open spec fn ternary_op(self) -> TernaryOp {
        TernaryOp {
            target: self.target() as usize,
            source_a: self.op_a() as usize,
            source_b: self.op_b() as usize,
            source_c: self.op_c() as usize,
        }
    }

    /// A jump to the address in the first source register.
    pub open spec fn absolute_jump(self, condition: JumpCondition) -> Operation {
        Operation::Jump {
            target: JumpTarget::AbsoluteAdressRegister(self.op_a() as usize),
            condition,
        }
    }

    /// A jump by the sign-extended 12-bit immediate.
    pub open spec fn relative_jump(self, condition: JumpCondition) -> Operation {
        Operation::Jump {
            target: JumpTarget::AddressOffsetConstant(sign_extend_12(self.constant12())),
            condition,
        }
    }

    /// The operation that the word encodes. A word whose opcode byte the
    /// instruction set does not have, and a `DBG`, decode to `Noop`.
    pub open spec fn decoded(self) -> Operation {
        match self.selected_opcode() {
            Opcode::ADD => Operation::Add(self.binary_op()),
            Opcode::ADD3 => Operation::Add3(self.ternary_op()),
            Opcode::ADC => Operation::AddCarry(self.binary_op()),
            Opcode::SUB => Operation::Sub(self.binary_op()),
            Opcode::SUBC => Operation::SubCarry(self.binary_op()),
            Opcode::INC => Operation::Inc(self.unary_op()),
            Opcode::DEC => Operation::Dec(self.unary_op()),
            Opcode::MUL => Operation::Multiply(self.binary_op()),
            Opcode::TST => Operation::Test(self.binary_op()),
            Opcode::AND => Operation::And(self.binary_op()),
            Opcode::OR => Operation::Or(self.binary_op()),
            Opcode::NOT => Operation::Not(self.unary_op()),
            Opcode::NEG => Operation::Neg(self.unary_op()),
            Opcode::XOR => Operation::Xor(self.binary_op()),
            Opcode::XNOR => Operation::Xnor(self.binary_op()),
            Opcode::SHL => Operation::ShiftLeft(self.binary_op()),
            Opcode::SHR => Operation::ShiftRight(self.binary_op()),
            Opcode::MOV => Operation::Move(self.unary_op()),
            Opcode::JMP => self.absolute_jump(JumpCondition::Always),
            Opcode::JZ => self.absolute_jump(JumpCondition::Zero),
            Opcode::JNZ => self.absolute_jump(JumpCondition::NotZero),
            Opcode::JC => self.absolute_jump(JumpCondition::Carry),
            Opcode::JNC => self.absolute_jump(JumpCondition::NotCarry),
            Opcode::JRCON => self.relative_jump(JumpCondition::Always),
            Opcode::JZR => self.relative_jump(JumpCondition::Zero),
            Opcode::JNZR => self.relative_jump(JumpCondition::NotZero),
            Opcode::JCR => self.relative_jump(JumpCondition::Carry),
            Opcode::JNCR => self.relative_jump(JumpCondition::NotCarry),
            Opcode::ST => Operation::Store {
                address_register: self.op_b() as usize,
                data_register: self.op_a() as usize,
            },
            Opcode::LD => Operation::Load {
                target_register: self.target() as usize,
                source: LoadSource::RAM { address_register: self.op_b() as usize },
            },
            Opcode::NOP => Operation::Noop,
            Opcode::DBG => Operation::Noop,
            Opcode::HLT => Operation::Halt,
            Opcode::LDC => Operation::Load {
                target_register: self.load_address() as usize,
                source: LoadSource::Constant(self.constant16()),
            },
        }
    }

    /// Every word decodes to an operation whose registers exist.
    pub proof fn lemma_decoded_well_formed(self)
        ensures
            self.decoded().well_formed(),
    {
        lemma_field_bounds(self.buffer);
    }

    /// The operands of an operation with one source register.
    pub fn get_unary_op(&self) -> (op: UnaryOp)
        ensures
            op == self.unary_op(),
    {
        UnaryOp { target: self.get_target() as usize, source_a: self.get_op_a() as usize }
    }

    /// The operands of an operation with two source registers.
    pub fn get_binary_op(&self) -> (op: BinaryOp)
        ensures
            op == self.binary_op(),
    {
        BinaryOp {
            target: self.get_target() as usize,
            source_a: self.get_op_a() as usize,
            source_b: self.get_op_b() as usize,
        }
    }

    /// The operands of an operation with three source registers.
    pub fn get_ternary_op(&self) -> (op: TernaryOp)
        ensures
            op == self.ternary_op(),
    {
        TernaryOp {
            target: self.get_target() as usize,
            source_a: self.get_op_a() as usize,
            source_b: self.get_op_b() as usize,
            source_c: self.get_op_c() as usize,
        }
    }

    /// The signed offset of a relative jump: the 12-bit immediate, sign-extended.
    pub fn get_jump_offset(&self) -> (offset: i16)
        ensures
            offset == sign_extend_12(self.constant12()),
            -0x800 <= offset < 0x800,
    {
        let raw: u16 = self.get_constant12();
        if raw < 0x800 {
            raw as i16
        } else {
            (raw as i32 - 0x1000) as i16
        }
    }

    /// Decodes the word into the operation that it encodes.
    pub fn decode(&self) -> (op: Operation)
        ensures
            op == self.decoded(),
            op.well_formed(),
    {
        proof {
            self.lemma_decoded_well_formed();
        }
        match self.get_opcode() {
            Opcode::ADD => Operation::Add(self.get_binary_op()),
            Opcode::ADD3 => Operation::Add3(self.get_ternary_op()),
            Opcode::ADC => Operation::AddCarry(self.get_binary_op()),
            Opcode::SUB => Operation::Sub(self.get_binary_op()),
            Opcode::SUBC => Operation::SubCarry(self.get_binary_op()),
            Opcode::INC => Operation::Inc(self.get_unary_op()),
            Opcode::DEC => Operation::Dec(self.get_unary_op()),
            Opcode::MUL => Operation::Multiply(self.get_binary_op()),
            Opcode::TST => Operation::Test(self.get_binary_op()),
            Opcode::AND => Operation::And(self.get_binary_op()),
            Opcode::OR => Operation::Or(self.get_binary_op()),
            Opcode::NOT => Operation::Not(self.get_unary_op()),
            Opcode::NEG => Operation::Neg(self.get_unary_op()),
            Opcode::XOR => Operation::Xor(self.get_binary_op()),
            Opcode::XNOR => Operation::Xnor(self.get_binary_op()),
            Opcode::SHL => Operation::ShiftLeft(self.get_binary_op()),
            Opcode::SHR => Operation::ShiftRight(self.get_binary_op()),
            Opcode::MOV => Operation::Move(self.get_unary_op()),
            Opcode::JMP => Operation::Jump {
                target: JumpTarget::AbsoluteAdressRegister(self.get_op_a() as usize),
                condition: JumpCondition::Always,
            },
            Opcode::JZ => Operation::Jump {
                target: JumpTarget::AbsoluteAdressRegister(self.get_op_a() as usize),
                condition: JumpCondition::Zero,
            },
            Opcode::JNZ => Operation::Jump {
                target: JumpTarget::AbsoluteAdressRegister(self.get_op_a() as usize),
                condition: JumpCondition::NotZero,
            },
            Opcode::JC => Operation::Jump {
                target: JumpTarget::AbsoluteAdressRegister(self.get_op_a() as usize),
                condition: JumpCondition::Carry,
            },
            Opcode::JNC => Operation::Jump {
                target: JumpTarget::AbsoluteAdressRegister(self.get_op_a() as usize),
                condition: JumpCondition::NotCarry,
            },
            Opcode::JRCON => Operation::Jump {
                target: JumpTarget::AddressOffsetConstant(self.get_jump_offset()),
                condition: JumpCondition::Always,
            },
            Opcode::JZR => Operation::Jump {
                target: JumpTarget::AddressOffsetConstant(self.get_jump_offset()),
                condition: JumpCondition::Zero,
            },
            Opcode::JNZR => Operation::Jump {
                target: JumpTarget::AddressOffsetConstant(self.get_jump_offset()),
                condition: JumpCondition::NotZero,
            },
            Opcode::JCR => Operation::Jump {
                target: JumpTarget::AddressOffsetConstant(self.get_jump_offset()),
                condition: JumpCondition::Carry,
            },
            Opcode::JNCR => Operation::Jump {
                target: JumpTarget::AddressOffsetConstant(self.get_jump_offset()),
                condition: JumpCondition::NotCarry,
            },
            Opcode::ST => Operation::Store {
                address_register: self.get_op_b() as usize,
                data_register: self.get_op_a() as usize,
            },
            Opcode::LD => Operation::Load {
                target_register: self.get_target() as usize,
                source: LoadSource::RAM { address_register: self.get_op_b() as usize },
            },
            Opcode::NOP => Operation::Noop,
            Opcode::DBG => Operation::Noop,
            Opcode::HLT => Operation::Halt,
            Opcode::LDC => Operation::Load {
                target_register: self.get_load_address() as usize,
                source: LoadSource::Constant(self.get_constant16()),
            },
        }
    }
}

impl From<u32> for InstructionWord {
    fn from(value: u32) -> (word: Self) {
        InstructionWord::from_u32(value)
    }
}

impl FromSpecImpl<u32> for InstructionWord {
    open spec fn obeys_from_spec() -> bool {
        true
    }

    open spec fn from_spec(value: u32) -> Self {
        InstructionWord { buffer: value & WORD_MASK }
    }
}

impl From<[u8; 3]> for InstructionWord {
    fn from(value: [u8; 3]) -> (word: Self) {
        InstructionWord::from_bytes(value)
    }
}

impl FromSpecImpl<[u8; 3]> for InstructionWord {
    open spec fn obeys_from_spec() -> bool {
        true
    }

    open spec fn from_spec(value: [u8; 3]) -> Self {
        InstructionWord { buffer: word_of_bytes(value) }
    }
}

impl From<InstructionWord> for Operation {
    fn from(iw: InstructionWord) -> (op: Self) {
        iw.decode()
    }
}

impl FromSpecImpl<InstructionWord> for Operation {
    open spec fn obeys_from_spec() -> bool {
        true
    }

    open spec fn from_spec(iw: InstructionWord) -> Self {
        iw.decoded()
    }
}

impl From<u32> for Operation {
    fn from(value: u32) -> (op: Self) {
        InstructionWord::from_u32(value).decode()
    }
}

impl FromSpecImpl<u32> for Operation {
    open spec fn obeys_from_spec() -> bool {
        true
    }

    open spec fn from_spec(value: u32) -> Self {
        InstructionWord { buffer: value & WORD_MASK }.decoded()
    }
}

impl From<[u8; 3]> for Operation {
    fn from(value: [u8; 3]) -> (op: Self) {
        InstructionWord::from_bytes(value).decode()
    }
}

impl FromSpecImpl<[u8; 3]> for Operation {
    open spec fn obeys_from_spec() -> bool {
        true
    }

    open spec fn from_spec(value: [u8; 3]) -> Self {
        InstructionWord { buffer: word_of_bytes(value) }.decoded()
    }
}


impl Opcode {
    /// The mnemonic of the opcode in the table of the instruction set.
    pub open spec fn mnemonic(self) -> Seq<char> {
        match self {
            Opcode::ADD => "add"@,
            Opcode::ADD3 => "add3"@,
            Opcode::ADC => "adc"@,
            Opcode::SUB => "sub"@,
            Opcode::SUBC => "subc"@,
            Opcode::INC => "inc"@,
            Opcode::DEC => "dec"@,
            Opcode::MUL => "mul"@,
            Opcode::TST => "tst"@,
            Opcode::AND => "and"@,
            Opcode::OR => "or"@,
            Opcode::NOT => "not"@,
            Opcode::NEG => "neg"@,
            Opcode::XOR => "xor"@,
            Opcode::XNOR => "xnor"@,
            Opcode::SHL => "shl"@,
            Opcode::SHR => "shr"@,
            Opcode::MOV => "mov"@,
            Opcode::JMP => "jmp"@,
            Opcode::JZ => "jz"@,
            Opcode::JNZ => "jnz"@,
            Opcode::JC => "jc"@,
            Opcode::JNC => "jnc"@,
            Opcode::JRCON => "jrcon"@,
            Opcode::JZR => "jzr"@,
            Opcode::JNZR => "jnzr"@,
            Opcode::JCR => "jcr"@,
            Opcode::JNCR => "jncr"@,
            Opcode::ST => "st"@,
            Opcode::LD => "ld"@,
            Opcode::NOP => "nop"@,
            Opcode::DBG => "dbg"@,
            Opcode::HLT => "hlt"@,
            Opcode::LDC => "ldc"@,
        }
    }
}

/// The opcode byte of every word is at most 0x80, and exactly 0x80 where
/// the low eight bits of the word are 0x80 or more. Bits above the
/// twentieth do not touch it.
pub proof fn lemma_opcode_byte_clamped(word: u32)
    ensures
        opcode_of(word) <= 0x80,
        word % 0x100 >= 0x80 ==> opcode_of(word) == 0x80,
        word % 0x100 < 0x80 ==> opcode_of(word) == word % 0x100,
        opcode_of(word & WORD_MASK) == opcode_of(word),
{
    assert(bit_field(word, 0, 7) == word % 0x100) by (bit_vector);
    assert(bit_field(word & 0xF_FFFF, 0, 7) == bit_field(word, 0, 7)) by (bit_vector);
}

/// The word that three bytes spell is the number with those bytes as its
/// digits in base 256, modulo 2^20.
pub proof fn lemma_word_of_bytes_value(bytes: [u8; 3])
    ensures
        word_of_bytes(bytes) == (bytes[0] * 0x1_0000 + bytes[1] * 0x100 + bytes[2]) % 0x10_0000,
        word_of_bytes(bytes) < 0x10_0000,
{
    let b0 = bytes[0];
    let b1 = bytes[1];
    let b2 = bytes[2];
    assert(((b0 as u32) << 16) | ((b1 as u32) << 8) | (b2 as u32) == b0 * 0x1_0000 + b1 * 0x100
        + b2) by (bit_vector);
}

impl InstructionWord {
    /// Decoding a word and disassembling the result gives the mnemonic that
    /// the table has for the word's opcode. `DBG` is the one opcode left
    /// out: it decodes to `Noop`.
    pub proof fn lemma_decoded_mnemonic_is_opcode_mnemonic(self)
        requires
            self.selected_opcode() != Opcode::DBG,
        ensures
            self.decoded().mnemonic() == self.selected_opcode().mnemonic(),
    {
    }

    /// A `DBG`, and a word whose opcode byte the instruction set does not
    /// have, disassemble as `nop`.
    pub proof fn lemma_debug_and_unknown_disassemble_as_nop(self)
        requires
            self.selected_opcode() == Opcode::DBG || !self.opcode_known(),
        ensures
            self.decoded() == Operation::Noop,
            self.decoded().mnemonic() == "nop"@,
    {
    }
}

} // verus!
