//! The operations that the interpreter executes, one per instruction.

use crate::digits::{
    decimal_digits, prefixed_hex_digits, push_decimal, push_hex, push_signed_decimal,
    signed_decimal_digits,
};
use vstd::prelude::*;

verus! {

/// Index of a register in the register file.
pub type Register = usize;

/// Number of registers in the register file.
pub const REGISTER_COUNT: usize = 8;

/// Operands of an operation with one source register.
#[derive(Debug, PartialEq, Eq, Clone, Copy)]
pub struct UnaryOp {
    pub target: Register,
    pub source_a: Register,
}

/// Operands of an operation with two source registers.
#[derive(Debug, PartialEq, Eq, Clone, Copy)]
pub struct BinaryOp {
    pub target: Register,
    pub source_a: Register,
    pub source_b: Register,
}

/// Operands of an operation with three source registers.
#[derive(Debug, PartialEq, Eq, Clone, Copy)]
pub struct TernaryOp {
    pub target: Register,
    pub source_a: Register,
    pub source_b: Register,
    pub source_c: Register,
}

/// The flag state on which a jump is taken.
#[derive(Debug, PartialEq, Eq, Clone, Copy)]
pub enum JumpCondition {
    Always,
    Zero,
    NotZero,
    Carry,
    NotCarry,
}

/// Where a jump goes: a signed offset from the jumping instruction, or the
/// address held in a register.
#[derive(Debug, PartialEq, Eq, Clone, Copy)]
pub enum JumpTarget {
    AddressOffsetConstant(i16),
    AbsoluteAdressRegister(Register),
}

/// Where a load takes its value from.
#[derive(Debug, PartialEq, Eq, Clone, Copy)]
pub enum LoadSource {
    Constant(u16),
    RAM { address_register: Register },
}

/// One decoded instruction.
#[derive(Debug, PartialEq, Eq, Clone, Copy)]
pub enum Operation {
    Halt,
    Noop,
    Inc(UnaryOp),
    Dec(UnaryOp),
    Neg(UnaryOp),
    Not(UnaryOp),
    Move(UnaryOp),
    And(BinaryOp),
    Or(BinaryOp),
    Xor(BinaryOp),
    Xnor(BinaryOp),
    Add(BinaryOp),
    AddCarry(BinaryOp),
    Sub(BinaryOp),
    SubCarry(BinaryOp),
    Multiply(BinaryOp),
    ShiftLeft(BinaryOp),
    ShiftRight(BinaryOp),
    Test(BinaryOp),
    Add3(TernaryOp),
    Jump { target: JumpTarget, condition: JumpCondition },
    Load { target_register: Register, source: LoadSource },
    Store { address_register: Register, data_register: Register },
}

impl UnaryOp {
    /// Both register indices exist in the register file.
    pub open spec fn well_formed(self) -> bool {
        self.target < REGISTER_COUNT && self.source_a < REGISTER_COUNT
    }
}

impl BinaryOp {
    /// All register indices exist in the register file.
    pub open spec fn well_formed(self) -> bool {
        self.target < REGISTER_COUNT && self.source_a < REGISTER_COUNT && self.source_b
            < REGISTER_COUNT
    }
}

impl TernaryOp {
    /// All register indices exist in the register file.
    pub open spec fn well_formed(self) -> bool {
        self.target < REGISTER_COUNT && self.source_a < REGISTER_COUNT && self.source_b
            < REGISTER_COUNT && self.source_c < REGISTER_COUNT
    }
}

impl Operation {
    /// Every register that the operation names exists in the register file.
    pub open spec fn well_formed(self) -> bool {
        match self {
            Operation::Halt | Operation::Noop => true,
            Operation::Inc(o) | Operation::Dec(o) | Operation::Neg(o) | Operation::Not(o)
            | Operation::Move(o) => o.well_formed(),
            Operation::And(o) | Operation::Or(o) | Operation::Xor(o) | Operation::Xnor(o)
            | Operation::Add(o) | Operation::AddCarry(o) | Operation::Sub(o)
            | Operation::SubCarry(o) | Operation::Multiply(o) | Operation::ShiftLeft(o)
            | Operation::ShiftRight(o) | Operation::Test(o) => o.well_formed(),
            Operation::Add3(o) => o.well_formed(),
            Operation::Jump { target: JumpTarget::AddressOffsetConstant(_), .. } => true,
            Operation::Jump { target: JumpTarget::AbsoluteAdressRegister(r), .. } => r
                < REGISTER_COUNT,
            Operation::Load { target_register, source: LoadSource::Constant(_) } => target_register
                < REGISTER_COUNT,
            Operation::Load { target_register, source: LoadSource::RAM { address_register } } =>
                target_register < REGISTER_COUNT && address_register < REGISTER_COUNT,
            Operation::Store { address_register, data_register } => address_register
                < REGISTER_COUNT && data_register < REGISTER_COUNT,
        }
    }

    /// Tells whether every register that the operation names exists.
    pub fn is_well_formed(&self) -> (ok: bool)
        ensures
            ok == self.well_formed(),
    {
        match self {
            Operation::Halt | Operation::Noop => true,
            Operation::Inc(o) | Operation::Dec(o) | Operation::Neg(o) | Operation::Not(o)
            | Operation::Move(o) => o.target < REGISTER_COUNT && o.source_a < REGISTER_COUNT,
            Operation::And(o) | Operation::Or(o) | Operation::Xor(o) | Operation::Xnor(o)
            | Operation::Add(o) | Operation::AddCarry(o) | Operation::Sub(o)
            | Operation::SubCarry(o) | Operation::Multiply(o) | Operation::ShiftLeft(o)
            | Operation::ShiftRight(o) | Operation::Test(o) => o.target < REGISTER_COUNT
                && o.source_a < REGISTER_COUNT && o.source_b < REGISTER_COUNT,
            Operation::Add3(o) => o.target < REGISTER_COUNT && o.source_a < REGISTER_COUNT
                && o.source_b < REGISTER_COUNT && o.source_c < REGISTER_COUNT,
            Operation::Jump { target: JumpTarget::AddressOffsetConstant(_), .. } => true,
            Operation::Jump { target: JumpTarget::AbsoluteAdressRegister(r), .. } => *r
                < REGISTER_COUNT,
            Operation::Load { target_register, source: LoadSource::Constant(_) } => *target_register
                < REGISTER_COUNT,
            Operation::Load { target_register, source: LoadSource::RAM { address_register } } =>
                *target_register < REGISTER_COUNT && *address_register < REGISTER_COUNT,
            Operation::Store { address_register, data_register } => *address_register
                < REGISTER_COUNT && *data_register < REGISTER_COUNT,
        }
    }
}


/// A register as the disassembly names it: a space, `%reg` and its index.
pub open spec fn register_text(register: Register) -> Seq<char> {
    " %reg"@ + decimal_digits(register as nat)
}

/// Writes the name of `register` at the end of `out`.
fn push_register(out: &mut String, register: Register)
    ensures
        final(out)@ == old(out)@ + register_text(register),
{
    out.append(" %reg");
    push_decimal(out, register as u64);
    assert(out@ =~= old(out)@ + register_text(register));
}

impl Operation {
    /// The mnemonic of the operation in the disassembly.
    pub open spec fn mnemonic(self) -> Seq<char> {
        match self {
            Operation::Noop => "nop"@,
            Operation::Halt => "hlt"@,
            Operation::Add(_) => "add"@,
            Operation::AddCarry(_) => "adc"@,
            Operation::Add3(_) => "add3"@,
            Operation::Sub(_) => "sub"@,
            Operation::SubCarry(_) => "subc"@,
            Operation::And(_) => "and"@,
            Operation::Or(_) => "or"@,
            Operation::Xor(_) => "xor"@,
            Operation::Xnor(_) => "xnor"@,
            Operation::ShiftLeft(_) => "shl"@,
            Operation::ShiftRight(_) => "shr"@,
            Operation::Inc(_) => "inc"@,
            Operation::Neg(_) => "neg"@,
            Operation::Test(_) => "tst"@,
            Operation::Dec(_) => "dec"@,
            Operation::Move(_) => "mov"@,
            Operation::Multiply(_) => "mul"@,
            Operation::Not(_) => "not"@,
            Operation::Jump { target: JumpTarget::AddressOffsetConstant(_), condition } => {
                match condition {
                    JumpCondition::Zero => "jzr"@,
                    JumpCondition::Carry => "jcr"@,
                    JumpCondition::NotZero => "jnzr"@,
                    JumpCondition::Always => "jrcon"@,
                    JumpCondition::NotCarry => "jncr"@,
                }
            },
            Operation::Jump { target: JumpTarget::AbsoluteAdressRegister(_), condition } => {
                match condition {
                    JumpCondition::Zero => "jz"@,
                    JumpCondition::Carry => "jc"@,
                    JumpCondition::NotZero => "jnz"@,
                    JumpCondition::Always => "jmp"@,
                    JumpCondition::NotCarry => "jnc"@,
                }
            },
            Operation::Load { source: LoadSource::RAM { .. }, .. } => "ld"@,
            Operation::Load { source: LoadSource::Constant(_), .. } => "ldc"@,
            Operation::Store { .. } => "st"@,
        }
    }

    /// The operands of the operation as the disassembly lists them behind
    /// the mnemonic. Registers are written `%reg` and their index, a load's
    /// constant in upper-case hexadecimal behind `0x`, a relative jump's
    /// offset in decimal. `inc` and `dec` list the register they change; a
    /// load from memory lists its address register.
    pub open spec fn operand_text(self) -> Seq<char> {
        match self {
            Operation::Noop | Operation::Halt => Seq::<char>::empty(),
            Operation::Inc(o) | Operation::Dec(o) => register_text(o.source_a),
            Operation::Neg(o) | Operation::Not(o) | Operation::Move(o) => register_text(o.target)
                + register_text(o.source_a),
            Operation::Add(o) | Operation::AddCarry(o) | Operation::Sub(o)
            | Operation::SubCarry(o) | Operation::And(o) | Operation::Or(o) | Operation::Xor(o)
            | Operation::Xnor(o) | Operation::ShiftLeft(o) | Operation::ShiftRight(o)
            | Operation::Multiply(o) | Operation::Test(o) => register_text(o.target)
                + register_text(o.source_a) + register_text(o.source_b),
            Operation::Add3(o) => register_text(o.target) + register_text(o.source_a)
                + register_text(o.source_b) + register_text(o.source_c),
            Operation::Jump { target: JumpTarget::AbsoluteAdressRegister(r), .. } => register_text(
                r,
            ),
            Operation::Jump { target: JumpTarget::AddressOffsetConstant(offset), .. } => " "@
                + signed_decimal_digits(offset as int),
            Operation::Load { target_register, source: LoadSource::Constant(constant) } =>
                register_text(target_register) + " "@ + prefixed_hex_digits(constant as nat, true),
            Operation::Load { source: LoadSource::RAM { address_register }, .. } => register_text(
                address_register,
            ),
            Operation::Store { address_register, data_register } => register_text(address_register)
                + register_text(data_register),
        }
    }

    /// The disassembly of the operation: its mnemonic, then its operands.
    pub open spec fn assembly_text(self) -> Seq<char> {
        self.mnemonic() + self.operand_text()
    }

    /// The mnemonic of the operation in the disassembly.
    pub fn get_assembly_opname(&self) -> (name: &'static str)
        ensures
            name@ == self.mnemonic(),
    {
        match self {
            Operation::Noop => "nop",
            Operation::Halt => "hlt",
            Operation::Add(_) => "add",
            Operation::AddCarry(_) => "adc",
            Operation::Add3(_) => "add3",
            Operation::Sub(_) => "sub",
            Operation::SubCarry(_) => "subc",
            Operation::And(_) => "and",
            Operation::Or(_) => "or",
            Operation::Xor(_) => "xor",
            Operation::Xnor(_) => "xnor",
            Operation::ShiftLeft(_) => "shl",
            Operation::ShiftRight(_) => "shr",
            Operation::Inc(_) => "inc",
            Operation::Neg(_) => "neg",
            Operation::Test(_) => "tst",
            Operation::Dec(_) => "dec",
            Operation::Move(_) => "mov",
            Operation::Multiply(_) => "mul",
            Operation::Not(_) => "not",
            Operation::Jump { target: JumpTarget::AddressOffsetConstant(_), condition } => {
                match condition {
                    JumpCondition::Zero => "jzr",
                    JumpCondition::Carry => "jcr",
                    JumpCondition::NotZero => "jnzr",
                    JumpCondition::Always => "jrcon",
                    JumpCondition::NotCarry => "jncr",
                }
            },
            Operation::Jump { target: JumpTarget::AbsoluteAdressRegister(_), condition } => {
                match condition {
                    JumpCondition::Zero => "jz",
                    JumpCondition::Carry => "jc",
                    JumpCondition::NotZero => "jnz",
                    JumpCondition::Always => "jmp",
                    JumpCondition::NotCarry => "jnc",
                }
            },
            Operation::Load { source: LoadSource::RAM { .. }, .. } => "ld",
            Operation::Load { source: LoadSource::Constant(_), .. } => "ldc",
            Operation::Store { .. } => "st",
        }
    }

    /// The disassembly of the operation: its mnemonic, then its operands.
    pub fn get_assembly_string(&self) -> (text: String)
        ensures
            text@ == self.assembly_text(),
    {
        let mut text = String::from_str(self.get_assembly_opname());
        match self {
            Operation::Noop | Operation::Halt => {},
            Operation::Inc(o) | Operation::Dec(o) => {
                push_register(&mut text, o.source_a);
            },
            Operation::Neg(o) | Operation::Not(o) | Operation::Move(o) => {
                push_register(&mut text, o.target);
                push_register(&mut text, o.source_a);
            },
            Operation::Add(o) | Operation::AddCarry(o) | Operation::Sub(o)
            | Operation::SubCarry(o) | Operation::And(o) | Operation::Or(o) | Operation::Xor(o)
            | Operation::Xnor(o) | Operation::ShiftLeft(o) | Operation::ShiftRight(o)
            | Operation::Multiply(o) | Operation::Test(o) => {
                push_register(&mut text, o.target);
                push_register(&mut text, o.source_a);
                push_register(&mut text, o.source_b);
            },
            Operation::Add3(o) => {
                push_register(&mut text, o.target);
                push_register(&mut text, o.source_a);
                push_register(&mut text, o.source_b);
                push_register(&mut text, o.source_c);
            },
            Operation::Jump { target: JumpTarget::AbsoluteAdressRegister(r), .. } => {
                push_register(&mut text, *r);
            },
            Operation::Jump { target: JumpTarget::AddressOffsetConstant(offset), .. } => {
                text.append(" ");
                push_signed_decimal(&mut text, *offset as i64);
            },
            Operation::Load { target_register, source: LoadSource::Constant(constant) } => {
                push_register(&mut text, *target_register);
                text.append(" ");
                text.append("0x");
                proof {
                    reveal_strlit("0x");
                }
                push_hex(&mut text, *constant as u32, true);
            },
            Operation::Load { source: LoadSource::RAM { address_register }, .. } => {
                push_register(&mut text, *address_register);
            },
            Operation::Store { address_register, data_register } => {
                push_register(&mut text, *address_register);
                push_register(&mut text, *data_register);
            },
        }
        assert(text@ =~= self.assembly_text());
        text
    }

    /// The disassembly of an operation begins with its mnemonic.
    pub proof fn lemma_assembly_begins_with_mnemonic(self)
        ensures
            self.mnemonic().is_prefix_of(self.assembly_text()),
    {
        assert(self.assembly_text().subrange(0, self.mnemonic().len() as int) =~= self.mnemonic());
    }
}

} // verus!
