//! The state of the CPU and the interpreter that executes operations on it.

use crate::ir::{
    BinaryOp, JumpCondition, JumpTarget, LoadSource, Operation, Register, UnaryOp,
    REGISTER_COUNT,
};
use crate::program::{Program, Slot};
use vstd::prelude::*;

verus! {

/// Number of 16-bit cells in RAM. Addresses from here up are ports.
pub const RAM_SIZE: usize = 32_768;

/// Writing a character code here appends the character to the output stream.
pub const PORT_TTY_WRITE: u16 = 0x8000;

/// Writing here empties the output stream.
pub const PORT_TTY_CLEAR: u16 = 0x8001;

/// Reading here takes the first character off the input stream.
pub const PORT_KEY_READ: u16 = 0x8002;

/// Writing here empties the input stream.
pub const PORT_KEY_CLEAR: u16 = 0x8003;

/// Reserved for a joystick: reads as zero, writes are dropped.
pub const PORT_JOYSTICK: u16 = 0x8004;

/// Writing here gives the random number generator a fresh state.
pub const PORT_RNG_RESEED: u16 = 0x8005;

/// Writing here moves the random number generator to its next state.
pub const PORT_RNG_NEXT: u16 = 0x8006;

/// Reading here gives the state of the random number generator.
pub const PORT_RNG_READ: u16 = 0x8007;

/// The character that stands in for a code that is no Unicode scalar value.
pub const REPLACEMENT_CHARACTER: char = '\u{FFFD}';

/// The condition flags. No operation writes `overflow`.
#[derive(Debug, PartialEq, Eq, Clone, Copy)]
pub struct Flags {
    pub carry: bool,
    pub overflow: bool,
    pub zero: bool,
}

/// A first-in, first-out buffer of characters.
#[derive(Debug, PartialEq, Eq)]
pub struct IOStream {
    pub string: String,
}

impl View for IOStream {
    type V = Seq<char>;

    open spec fn view(&self) -> Seq<char> {
        self.string@
    }
}

/// Assumed of `char::from_u32` of the standard library, and not proved
/// here: a number that is a Unicode scalar value (below 0xD800, or from
/// 0xE000 to 0x10FFFF) gives the character with that code, and every other
/// number gives `None`.
pub assume_specification[ char::from_u32 ](i: u32) -> (converted: Option<char>)
    ensures
        i <= 0xD7FF || 0xE000 <= i <= 0x10_FFFF ==> converted == Some(i as char),
        !(i <= 0xD7FF || 0xE000 <= i <= 0x10_FFFF) ==> converted is None,
;

impl IOStream {
    /// An empty stream.
    pub fn new() -> (stream: IOStream)
        ensures
            stream@ == Seq::<char>::empty(),
    {
        IOStream { string: String::new() }
    }

    /// Empties the stream.
    pub fn clear(&mut self)
        ensures
            final(self)@ == Seq::<char>::empty(),
    {
        self.string = String::new();
    }

    /// Adds `ch` at the tail of the stream.
    pub fn append_char(&mut self, ch: char)
        ensures
            final(self)@ == old(self)@.push(ch),
    {
        self.string.push(ch);
    }

    /// Removes the character at the tail of the stream. An empty stream
    /// stays empty.
    pub fn remove_last(&mut self)
        ensures
            old(self)@.len() == 0 ==> final(self)@ == old(self)@,
            old(self)@.len() > 0 ==> final(self)@ == old(self)@.drop_last(),
    {
        let length = self.string.as_str().unicode_len();
        if length > 0 {
            let rest = String::from_str(self.string.as_str().substring_char(0, length - 1));
            self.string = rest;
        }
    }

    /// Takes the character at the head of the stream off it and returns it.
    /// An empty stream stays empty and gives U+0000.
    pub fn consume_first(&mut self) -> (ch: char)
        ensures
            old(self)@.len() == 0 ==> ch == '\0' && final(self)@ == old(self)@,
            old(self)@.len() > 0 ==> ch == old(self)@[0] && final(self)@ == old(self)@.drop_first(),
    {
        let length = self.string.as_str().unicode_len();
        if length == 0 {
            '\0'
        } else {
            let ch = self.string.as_str().get_char(0);
            let rest = String::from_str(self.string.as_str().substring_char(1, length));
            self.string = rest;
            ch
        }
    }
}


/// The whole state of the CPU.
#[derive(Debug, PartialEq, Eq)]
pub struct CpuState {
    pub registers: [u16; 8],
    pub flags: Flags,
    pub ram: [u16; RAM_SIZE],
    pub pcounter: u16,
    pub received_halt: bool,
    pub istream: IOStream,
    pub ostream: IOStream,
    pub rng_state: u16,
}

/// The state of the CPU as a mathematical value.
#[verifier::ext_equal]
pub struct CpuModel {
    pub registers: Seq<u16>,
    pub flags: Flags,
    pub ram: Seq<u16>,
    pub pcounter: u16,
    pub received_halt: bool,
    pub istream: Seq<char>,
    pub ostream: Seq<char>,
    pub rng_state: u16,
}

impl View for CpuState {
    type V = CpuModel;

    open spec fn view(&self) -> CpuModel {
        CpuModel {
            registers: self.registers@,
            flags: self.flags,
            ram: self.ram@,
            pcounter: self.pcounter,
            received_halt: self.received_halt,
            istream: self.istream@,
            ostream: self.ostream@,
            rng_state: self.rng_state,
        }
    }
}

/// `n` reduced to sixteen bits: the number from 0 to 65535 that differs
/// from `n` by a multiple of 2^16.
pub open spec fn wrap16(n: int) -> u16 {
    (n % 0x1_0000) as u16
}

/// Whether a jump on `condition` is taken under `flags`.
pub open spec fn condition_holds(condition: JumpCondition, flags: Flags) -> bool {
    match condition {
        JumpCondition::Always => true,
        JumpCondition::Zero => flags.zero,
        JumpCondition::NotZero => !flags.zero,
        JumpCondition::Carry => flags.carry,
        JumpCondition::NotCarry => !flags.carry,
    }
}

/// The character that the output stream gets for `code`. A code in the
/// surrogate range is no character and gives U+FFFD.
pub open spec fn char_of_code(code: u16) -> char {
    if 0xD800 <= code <= 0xDFFF {
        REPLACEMENT_CHARACTER
    } else {
        code as char
    }
}

/// The number that a register gets for a character of the input stream:
/// the low sixteen bits of its code.
pub open spec fn code_of_char(ch: char) -> u16 {
    wrap16(ch as int)
}

/// `value` shifted left by `amount` bits within sixteen bits. A shift by
/// sixteen or more leaves nothing.
pub open spec fn shift_left(value: u16, amount: u16) -> u16 {
    if amount >= 16 {
        0
    } else {
        value << amount
    }
}

/// `value` shifted right by `amount` bits, with zeros coming in. A shift
/// by sixteen or more leaves nothing.
pub open spec fn shift_right(value: u16, amount: u16) -> u16 {
    if amount >= 16 {
        0
    } else {
        value >> amount
    }
}

impl CpuModel {
    /// The register file and the memory have their sizes.
    pub open spec fn well_formed(self) -> bool {
        self.registers.len() == REGISTER_COUNT && self.ram.len() == RAM_SIZE
    }

    /// The value of `register`.
    pub open spec fn register(self, register: Register) -> u16 {
        self.registers[register as int]
    }

    /// This state with `value` in `register`.
    pub open spec fn with_register(self, register: Register, value: u16) -> CpuModel {
        CpuModel { registers: self.registers.update(register as int, value), ..self }
    }

    /// This state with the zero flag telling whether `value` is zero.
    pub open spec fn with_zero_of(self, value: u16) -> CpuModel {
        CpuModel { flags: Flags { zero: value == 0, ..self.flags }, ..self }
    }

    /// This state with the carry flag set to `carry`.
    pub open spec fn with_carry(self, carry: bool) -> CpuModel {
        CpuModel { flags: Flags { carry, ..self.flags }, ..self }
    }

    /// This state after a logic operation wrote `value` to `register`: the
    /// zero flag follows the value, the carry flag stays.
    pub open spec fn with_result(self, register: Register, value: u16) -> CpuModel {
        self.with_register(register, value).with_zero_of(value)
    }

    /// This state after an arithmetic operation wrote `value` to
    /// `register`: the zero flag follows the value, the carry flag is `carry`.
    pub open spec fn with_arithmetic(self, register: Register, value: u16, carry: bool) -> CpuModel {
        self.with_register(register, value).with_zero_of(value).with_carry(carry)
    }

    /// One, where the carry flag is set; zero otherwise.
    pub open spec fn carry_in(self) -> int {
        if self.flags.carry {
            1
        } else {
            0
        }
    }

    /// The value that a load from `address` gives: a cell of RAM below
    /// 0x8000; the first character of the input stream, or zero where it is
    /// empty, at the keyboard port; the generator's state at its port; zero
    /// at every other port.
    pub open spec fn loaded_value(self, address: u16) -> u16 {
        if address == PORT_KEY_READ {
            if self.istream.len() == 0 {
                0
            } else {
                code_of_char(self.istream[0])
            }
        } else if address == PORT_RNG_READ {
            self.rng_state
        } else if address >= RAM_SIZE {
            0
        } else {
            self.ram[address as int]
        }
    }

    /// This state after a load from `address` into `target`. Reading the
    /// keyboard port takes the first character off the input stream.
    pub open spec fn after_load(self, target: Register, address: u16) -> CpuModel {
        let taken = CpuModel {
            istream: if address == PORT_KEY_READ && self.istream.len() > 0 {
                self.istream.drop_first()
            } else {
                self.istream
            },
            ..self
        };
        taken.with_register(target, self.loaded_value(address))
    }

    /// This state after a store of `data` to `address`. `fresh_rng` is the
    /// state that the generator gets where the store reseeds or advances it;
    /// both ports give it a fresh random state.
    pub open spec fn after_store(self, address: u16, data: u16, fresh_rng: u16) -> CpuModel {
        if address == PORT_TTY_WRITE {
            CpuModel { ostream: self.ostream.push(char_of_code(data)), ..self }
        } else if address == PORT_TTY_CLEAR {
            CpuModel { ostream: Seq::<char>::empty(), ..self }
        } else if address == PORT_KEY_CLEAR {
            CpuModel { istream: Seq::<char>::empty(), ..self }
        } else if address == PORT_RNG_RESEED || address == PORT_RNG_NEXT {
            CpuModel { rng_state: fresh_rng, ..self }
        } else if address >= RAM_SIZE {
            self
        } else {
            CpuModel { ram: self.ram.update(address as int, data), ..self }
        }
    }

    /// This state after a jump: the program counter moves where the
    /// condition holds, and stays where it does not.
    pub open spec fn after_jump(self, target: JumpTarget, condition: JumpCondition) -> CpuModel {
        if condition_holds(condition, self.flags) {
            match target {
                JumpTarget::AddressOffsetConstant(offset) => CpuModel {
                    pcounter: wrap16(self.pcounter + offset),
                    ..self
                },
                JumpTarget::AbsoluteAdressRegister(register) => CpuModel {
                    pcounter: self.register(register),
                    ..self
                },
            }
        } else {
            self
        }
    }

    /// What `op` does to this state, before the program counter moves on.
    /// `inc` and `dec` change their source register, not their target.
    pub open spec fn perform(self, op: Operation, fresh_rng: u16) -> CpuModel {
        match op {
            Operation::Halt => CpuModel { received_halt: true, ..self },
            Operation::Noop => self,
            Operation::Inc(o) => {
                let a = self.register(o.source_a);
                self.with_arithmetic(o.source_a, wrap16(a + 1), a + 1 >= 0x1_0000)
            },
            Operation::Dec(o) => {
                let a = self.register(o.source_a);
                self.with_arithmetic(o.source_a, wrap16(a - 1), a < 1)
            },
            Operation::Not(o) => self.with_result(o.target, !self.register(o.source_a)),
            Operation::Neg(o) => self.with_result(o.target, wrap16(-self.register(o.source_a))),
            Operation::Move(o) => self.with_register(o.target, self.register(o.source_a)),
            Operation::And(o) => self.with_result(
                o.target,
                self.register(o.source_a) & self.register(o.source_b),
            ),
            Operation::Or(o) => self.with_result(
                o.target,
                self.register(o.source_a) | self.register(o.source_b),
            ),
            Operation::Xor(o) => self.with_result(
                o.target,
                self.register(o.source_a) ^ self.register(o.source_b),
            ),
            Operation::Xnor(o) => self.with_result(
                o.target,
                !(self.register(o.source_a) ^ self.register(o.source_b)),
            ),
            Operation::ShiftLeft(o) => self.with_result(
                o.target,
                shift_left(self.register(o.source_a), self.register(o.source_b)),
            ),
            Operation::ShiftRight(o) => self.with_result(
                o.target,
                shift_right(self.register(o.source_a), self.register(o.source_b)),
            ),
            Operation::Add(o) => {
                let sum = self.register(o.source_a) + self.register(o.source_b);
                self.with_arithmetic(o.target, wrap16(sum), sum >= 0x1_0000)
            },
            Operation::AddCarry(o) => {
                let sum = self.register(o.source_a) + self.register(o.source_b) + self.carry_in();
                self.with_arithmetic(o.target, wrap16(sum), sum >= 0x1_0000)
            },
            Operation::Add3(o) => {
                let sum = self.register(o.source_a) + self.register(o.source_b) + self.register(
                    o.source_c,
                );
                self.with_arithmetic(o.target, wrap16(sum), sum >= 0x1_0000)
            },
            Operation::Sub(o) => {
                let difference = self.register(o.source_a) - self.register(o.source_b);
                self.with_arithmetic(o.target, wrap16(difference), difference < 0)
            },
            Operation::SubCarry(o) => {
                let difference = self.register(o.source_a) - self.register(o.source_b)
                    - self.carry_in();
                self.with_arithmetic(o.target, wrap16(difference), difference < 0)
            },
            Operation::Multiply(o) => self.with_result(
                o.target,
                wrap16(self.register(o.source_a) * self.register(o.source_b)),
            ),
            Operation::Test(o) => {
                let difference = self.register(o.source_a) - self.register(o.source_b);
                self.with_zero_of(wrap16(difference)).with_carry(difference < 0)
            },
            Operation::Load { target_register, source: LoadSource::Constant(data) } =>
                self.with_register(target_register, data),
            Operation::Load { target_register, source: LoadSource::RAM { address_register } } =>
                self.after_load(target_register, self.register(address_register)),
            Operation::Store { address_register, data_register } => self.after_store(
                self.register(address_register),
                self.register(data_register),
                fresh_rng,
            ),
            Operation::Jump { target, condition } => self.after_jump(target, condition),
        }
    }

    /// This state after one step that executes `op`. A halted CPU does not
    /// change. Otherwise `op` takes effect and then the program counter
    /// moves on by one, also behind a jump that was taken.
    pub open spec fn step(self, op: Operation, fresh_rng: u16) -> CpuModel {
        if self.received_halt {
            self
        } else {
            let done = self.perform(op, fresh_rng);
            CpuModel { pcounter: wrap16(done.pcounter + 1), ..done }
        }
    }

    /// Whether a step that executes `op` draws a fresh random number.
    pub open spec fn draws_random(self, op: Operation) -> bool {
        !self.received_halt && match op {
            Operation::Store { address_register, .. } => {
                let address = self.register(address_register);
                address == PORT_RNG_RESEED || address == PORT_RNG_NEXT
            },
            _ => false,
        }
    }
}

/// Calls `rand::random` for a `u16`. Nothing is known of the number that
/// comes back.
#[verifier::external_body]
fn random_u16() -> u16 {
    rand::random()
}


/// `n` reduced to sixteen bits.
fn wrapped(n: i32) -> (value: u16)
    requires
        -0x1_0000 <= n <= 0x7000_0000,
    ensures
        value == wrap16(n as int),
{
    ((n + 0x1_0000) % 0x1_0000) as u16
}

impl CpuModel {
    /// The state of a CPU that has just been reset, with `rng_state` as the
    /// state of its random number generator: registers, flags, memory and
    /// program counter are zero, the streams are empty, it has not halted.
    pub open spec fn initial(rng_state: u16) -> CpuModel {
        CpuModel {
            registers: Seq::new(REGISTER_COUNT as nat, |i: int| 0u16),
            flags: Flags { carry: false, overflow: false, zero: false },
            ram: Seq::new(RAM_SIZE as nat, |i: int| 0u16),
            pcounter: 0,
            received_halt: false,
            istream: Seq::<char>::empty(),
            ostream: Seq::<char>::empty(),
            rng_state,
        }
    }
}

impl Default for CpuState {
    /// A CPU in its reset state, with a random number generator state
    /// drawn afresh.
    fn default() -> (cpu: Self)
        ensures
            cpu@ == CpuModel::initial(cpu.rng_state),
    {
        CpuState::with_rng_state(random_u16())
    }
}

impl CpuState {
    /// A CPU in its reset state, with `rng_state` as the state of its
    /// random number generator.
    pub fn with_rng_state(rng_state: u16) -> (cpu: CpuState)
        ensures
            cpu@ == CpuModel::initial(rng_state),
    {
        let cpu = CpuState {
            registers: [0u16;8],
            flags: Flags { carry: false, overflow: false, zero: false },
            ram: [0u16;RAM_SIZE],
            pcounter: 0,
            received_halt: false,
            istream: IOStream::new(),
            ostream: IOStream::new(),
            rng_state,
        };
        assert(cpu@ =~= CpuModel::initial(rng_state));
        cpu
    }

    /// Puts the CPU back into its reset state, with a random number
    /// generator state drawn afresh.
    pub fn reset(&mut self)
        ensures
            final(self)@ == CpuModel::initial(final(self).rng_state),
    {
        *self = CpuState::with_rng_state(random_u16());
    }

    /// Sets the zero flag where `res` is zero, and clears it where it is not.
    pub fn update_zero_flag(&mut self, res: u16)
        ensures
            final(self)@ == old(self)@.with_zero_of(res),
    {
        self.flags.zero = res == 0;
    }

    /// Writes the result of a logic operation.
    fn write_result(&mut self, register: Register, value: u16)
        requires
            register < REGISTER_COUNT,
        ensures
            final(self)@ == old(self)@.with_result(register, value),
    {
        self.registers[register] = value;
        self.update_zero_flag(value);
        assert(self@ =~= old(self)@.with_result(register, value));
    }

    /// Writes the result of an arithmetic operation.
    fn write_arithmetic(&mut self, register: Register, value: u16, carry: bool)
        requires
            register < REGISTER_COUNT,
        ensures
            final(self)@ == old(self)@.with_arithmetic(register, value, carry),
    {
        self.registers[register] = value;
        self.update_zero_flag(value);
        self.flags.carry = carry;
        assert(self@ =~= old(self)@.with_arithmetic(register, value, carry));
    }

    /// Loads the value at `address` into `target`.
    fn load_from(&mut self, target: Register, address: u16)
        requires
            target < REGISTER_COUNT,
        ensures
            final(self)@ == old(self)@.after_load(target, address),
    {
        let value: u16 = if address == PORT_KEY_READ {
            let ch = self.istream.consume_first();
            ((ch as u32) % 0x1_0000) as u16
        } else if address == PORT_RNG_READ {
            self.rng_state
        } else if address as usize >= RAM_SIZE {
            0
        } else {
            self.ram[address as usize]
        };
        self.registers[target] = value;
        assert(self@ =~= old(self)@.after_load(target, address));
    }

    /// Stores `data` at `address`.
    fn store_to(&mut self, address: u16, data: u16, fresh_rng: u16)
        ensures
            final(self)@ == old(self)@.after_store(address, data, fresh_rng),
    {
        if address == PORT_TTY_WRITE {
            let ch = match char::from_u32(data as u32) {
                Some(c) => c,
                None => REPLACEMENT_CHARACTER,
            };
            self.ostream.append_char(ch);
        } else if address == PORT_TTY_CLEAR {
            self.ostream.clear();
        } else if address == PORT_KEY_CLEAR {
            self.istream.clear();
        } else if address == PORT_RNG_RESEED || address == PORT_RNG_NEXT {
            self.rng_state = fresh_rng;
        } else if address as usize >= RAM_SIZE {
        } else {
            self.ram[address as usize] = data;
        }
        assert(self@ =~= old(self)@.after_store(address, data, fresh_rng));
    }

    /// Tells whether a jump on `condition` is taken now.
    fn condition_met(&self, condition: &JumpCondition) -> (met: bool)
        ensures
            met == condition_holds(*condition, self.flags),
    {
        match condition {
            JumpCondition::Always => true,
            JumpCondition::Zero => self.flags.zero,
            JumpCondition::NotZero => !self.flags.zero,
            JumpCondition::Carry => self.flags.carry,
            JumpCondition::NotCarry => !self.flags.carry,
        }
    }

    /// Moves the program counter where the jump is taken.
    fn jump(&mut self, target: &JumpTarget, condition: &JumpCondition)
        requires
            target matches JumpTarget::AbsoluteAdressRegister(r) ==> r < REGISTER_COUNT,
        ensures
            final(self)@ == old(self)@.after_jump(*target, *condition),
    {
        if self.condition_met(condition) {
            match target {
                JumpTarget::AddressOffsetConstant(offset) => {
                    self.pcounter = wrapped(self.pcounter as i32 + *offset as i32);
                },
                JumpTarget::AbsoluteAdressRegister(register) => {
                    self.pcounter = self.registers[*register];
                },
            }
        }
        assert(self@ =~= old(self)@.after_jump(*target, *condition));
    }
}


impl CpuState {
    /// What `op` does to the state, before the program counter moves on.
    fn perform(&mut self, op: &Operation, fresh_rng: u16)
        requires
            op.well_formed(),
        ensures
            final(self)@ == old(self)@.perform(*op, fresh_rng),
    {
        match op {
            Operation::Halt => {
                self.received_halt = true;
            },
            Operation::Noop => {},
            Operation::Inc(o) => {
                let a: u16 = self.registers[o.source_a];
                self.write_arithmetic(o.source_a, wrapped(a as i32 + 1), a == 0xFFFF);
            },
            Operation::Dec(o) => {
                let a: u16 = self.registers[o.source_a];
                self.write_arithmetic(o.source_a, wrapped(a as i32 - 1), a == 0);
            },
            Operation::Not(o) => {
                let a: u16 = self.registers[o.source_a];
                self.write_result(o.target, !a);
            },
            Operation::Neg(o) => {
                let a: u16 = self.registers[o.source_a];
                self.write_result(o.target, wrapped(-(a as i32)));
            },
            Operation::Move(o) => {
                let a: u16 = self.registers[o.source_a];
                self.registers[o.target] = a;
            },
            Operation::And(o) => {
                let a: u16 = self.registers[o.source_a];
                let b: u16 = self.registers[o.source_b];
                self.write_result(o.target, a & b);
            },
            Operation::Or(o) => {
                let a: u16 = self.registers[o.source_a];
                let b: u16 = self.registers[o.source_b];
                self.write_result(o.target, a | b);
            },
            Operation::Xor(o) => {
                let a: u16 = self.registers[o.source_a];
                let b: u16 = self.registers[o.source_b];
                self.write_result(o.target, a ^ b);
            },
            Operation::Xnor(o) => {
                let a: u16 = self.registers[o.source_a];
                let b: u16 = self.registers[o.source_b];
                self.write_result(o.target, !(a ^ b));
            },
            Operation::ShiftLeft(o) => {
                let a: u16 = self.registers[o.source_a];
                let b: u16 = self.registers[o.source_b];
                let shifted: u16 = if b >= 16 {
                    0
                } else {
                    a << b
                };
                self.write_result(o.target, shifted);
            },
            Operation::ShiftRight(o) => {
                let a: u16 = self.registers[o.source_a];
                let b: u16 = self.registers[o.source_b];
                let shifted: u16 = if b >= 16 {
                    0
                } else {
                    a >> b
                };
                self.write_result(o.target, shifted);
            },
            Operation::Add(o) => {
                let sum: i32 = self.registers[o.source_a] as i32 + self.registers[o.source_b] as i32;
                self.write_arithmetic(o.target, wrapped(sum), sum >= 0x1_0000);
            },
            Operation::AddCarry(o) => {
                let carry_in: i32 = if self.flags.carry {
                    1
                } else {
                    0
                };
                let sum: i32 = self.registers[o.source_a] as i32 + self.registers[o.source_b] as i32
                    + carry_in;
                self.write_arithmetic(o.target, wrapped(sum), sum >= 0x1_0000);
            },
            Operation::Add3(o) => {
                let sum: i32 = self.registers[o.source_a] as i32 + self.registers[o.source_b] as i32
                    + self.registers[o.source_c] as i32;
                self.write_arithmetic(o.target, wrapped(sum), sum >= 0x1_0000);
            },
            Operation::Sub(o) => {
                let difference: i32 = self.registers[o.source_a] as i32
                    - self.registers[o.source_b] as i32;
                self.write_arithmetic(o.target, wrapped(difference), difference < 0);
            },
            Operation::SubCarry(o) => {
                let carry_in: i32 = if self.flags.carry {
                    1
                } else {
                    0
                };
                let difference: i32 = self.registers[o.source_a] as i32
                    - self.registers[o.source_b] as i32 - carry_in;
                self.write_arithmetic(o.target, wrapped(difference), difference < 0);
            },
            Operation::Multiply(o) => {
                let a: u16 = self.registers[o.source_a];
                let b: u16 = self.registers[o.source_b];
                assert(0 <= a * b <= 0xFFFF * 0xFFFF) by (nonlinear_arith)
                    requires
                        0 <= a <= 0xFFFF,
                        0 <= b <= 0xFFFF,
                ;
                let product: u32 = a as u32 * b as u32;
                self.write_result(o.target, (product % 0x1_0000) as u16);
            },
            Operation::Test(o) => {
                let difference: i32 = self.registers[o.source_a] as i32
                    - self.registers[o.source_b] as i32;
                self.update_zero_flag(wrapped(difference));
                self.flags.carry = difference < 0;
            },
            Operation::Load { target_register, source: LoadSource::Constant(data) } => {
                self.registers[*target_register] = *data;
            },
            Operation::Load { target_register, source: LoadSource::RAM { address_register } } => {
                let address: u16 = self.registers[*address_register];
                self.load_from(*target_register, address);
            },
            Operation::Store { address_register, data_register } => {
                let address: u16 = self.registers[*address_register];
                let data: u16 = self.registers[*data_register];
                self.store_to(address, data, fresh_rng);
            },
            Operation::Jump { target, condition } => {
                self.jump(target, condition);
            },
        }
        assert(self@ =~= old(self)@.perform(*op, fresh_rng));
    }

    /// Executes `op` as one step, with `fresh_rng` as the state that the
    /// random number generator gets if `op` reseeds or advances it. A halted
    /// CPU does not change. Otherwise `op` takes effect and then the program
    /// counter moves on by one, wrapping around at 2^16.
    pub fn apply_operation(&mut self, op: &Operation, fresh_rng: u16)
        requires
            op.well_formed(),
        ensures
            final(self)@ == old(self)@.step(*op, fresh_rng),
            old(self).received_halt ==> *final(self) == *old(self),
    {
        if self.received_halt {
            return ;
        }
        self.perform(op, fresh_rng);
        self.pcounter = wrapped(self.pcounter as i32 + 1);
        assert(self@ =~= old(self)@.step(*op, fresh_rng));
    }

    /// Tells whether a step that executes `op` draws a fresh random number.
    pub fn needs_random(&self, op: &Operation) -> (needed: bool)
        requires
            op.well_formed(),
        ensures
            needed == self@.draws_random(*op),
    {
        if self.received_halt {
            return false;
        }
        match op {
            Operation::Store { address_register, .. } => {
                let address: u16 = self.registers[*address_register];
                address == PORT_RNG_RESEED || address == PORT_RNG_NEXT
            },
            _ => false,
        }
    }

    /// Executes `op` as one step. A halted CPU does not change. Otherwise
    /// `op` takes effect and then the program counter moves on by one. A
    /// store to one of the two generator ports draws a fresh random state;
    /// the state afterwards is the one that the step gives with the
    /// generator state found afterwards as the number drawn.
    pub fn execute_operation(&mut self, op: &Operation)
        requires
            op.well_formed(),
        ensures
            final(self)@ == old(self)@.step(*op, final(self).rng_state),
            old(self).received_halt ==> *final(self) == *old(self),
    {
        if self.received_halt {
            return ;
        }
        let fresh_rng: u16 = if self.needs_random(op) {
            random_u16()
        } else {
            self.rng_state
        };
        self.apply_operation(op, fresh_rng);
        assert(self@ =~= old(self)@.step(*op, self.rng_state));
    }
}


/// Why the interpreter refused to step.
#[derive(Debug, PartialEq, Eq, Clone, Copy)]
pub enum ExecutionError {
    /// The program counter points beyond the loaded program.
    PcBeyondProgram { pcounter: u16, program_len: usize },
}

impl CpuModel {
    /// The CPU has not halted and its program counter points beyond
    /// `program`: there is no operation to execute.
    pub open spec fn stuck(self, program: Seq<Slot>) -> bool {
        !self.received_halt && self.pcounter >= program.len()
    }

    /// The CPU has not halted and its program counter points into `program`.
    pub open spec fn running(self, program: Seq<Slot>) -> bool {
        !self.received_halt && self.pcounter < program.len()
    }

    /// This state after one step of `program`: the operation at the program
    /// counter is executed. A CPU that has halted, or that has no operation
    /// to execute, does not change.
    pub open spec fn program_step(self, program: Seq<Slot>, fresh_rng: u16) -> CpuModel {
        if self.running(program) {
            self.step(program[self.pcounter as int].operation(), fresh_rng)
        } else {
            self
        }
    }

    /// This state after as many steps of `program` as `drawn` is long, where
    /// the `k`-th step has `drawn[k]` as its fresh random number.
    pub open spec fn after_steps(self, program: Seq<Slot>, drawn: Seq<u16>) -> CpuModel
        decreases drawn.len(),
    {
        if drawn.len() == 0 {
            self
        } else {
            self.after_steps(program, drawn.drop_last()).program_step(program, drawn.last())
        }
    }

    /// `end` is where this state gets by `steps` steps of `program`, each
    /// of which found the CPU running.
    pub open spec fn reaches(self, program: Seq<Slot>, end: CpuModel, steps: nat) -> bool {
        exists|drawn: Seq<u16>|
            {
                &&& drawn.len() == steps
                &&& end == #[trigger] self.after_steps(program, drawn)
                &&& forall|k: int|
                    0 <= k < steps ==> (#[trigger] self.after_steps(
                        program,
                        drawn.take(k),
                    )).running(program)
            }
    }
}

impl CpuState {
    /// Executes the operation at the program counter as one step. A halted
    /// CPU does not change, and that is no error. A CPU whose program
    /// counter points beyond the program does not change either, and the
    /// step is refused.
    pub fn execute_next_prog_op(&mut self, prog: &Program) -> (outcome: Result<(), ExecutionError>)
        ensures
            final(self)@ == old(self)@.program_step(prog@, final(self).rng_state),
            !old(self)@.running(prog@) ==> *final(self) == *old(self),
            old(self)@.stuck(prog@) ==> outcome == Err::<(), ExecutionError>(
                ExecutionError::PcBeyondProgram {
                    pcounter: old(self).pcounter,
                    program_len: prog@.len() as usize,
                },
            ),
            !old(self)@.stuck(prog@) ==> outcome is Ok,
    {
        if self.received_halt {
            return Ok(());
        }
        match prog.operation(self.pcounter as usize) {
            Some(op) => {
                self.execute_operation(&op);
                Ok(())
            },
            None => Err(
                ExecutionError::PcBeyondProgram {
                    pcounter: self.pcounter,
                    program_len: prog.len(),
                },
            ),
        }
    }

    /// Steps through `prog` until the CPU halts, at most `max_steps` times.
    /// Returns the number of steps that were executed. Where the program
    /// counter leaves the program before the CPU halts, the run ends there
    /// with that error.
    pub fn run(&mut self, prog: &Program, max_steps: u64) -> (outcome: Result<u64, ExecutionError>)
        ensures
            outcome matches Ok(steps) ==> {
                &&& steps <= max_steps
                &&& old(self)@.reaches(prog@, final(self)@, steps as nat)
                &&& !final(self)@.stuck(prog@)
                &&& final(self).received_halt || steps == max_steps
            },
            outcome matches Err(e) ==> {
                &&& final(self)@.stuck(prog@)
                &&& e == ExecutionError::PcBeyondProgram {
                    pcounter: final(self).pcounter,
                    program_len: prog@.len() as usize,
                }
                &&& exists|steps: nat|
                    steps <= max_steps && old(self)@.reaches(prog@, final(self)@, steps)
            },
    {
        let mut steps: u64 = 0;
        let ghost mut drawn: Seq<u16> = Seq::empty();
        loop
            invariant
                steps <= max_steps,
                drawn.len() == steps,
                self@ == old(self)@.after_steps(prog@, drawn),
                forall|k: int|
                    0 <= k < steps ==> (#[trigger] old(self)@.after_steps(
                        prog@,
                        drawn.take(k),
                    )).running(prog@),
            decreases max_steps - steps,
        {
            if self.received_halt || steps == max_steps {
                if self.received_halt || (self.pcounter as usize) < prog.len() {
                    return Ok(steps);
                }
            }
            match self.execute_next_prog_op(prog) {
                Ok(()) => {
                    proof {
                        let longer = drawn.push(self.rng_state);
                        assert(longer.drop_last() =~= drawn);
                        assert(longer.take(steps as int) =~= drawn);
                        assert forall|k: int| 0 <= k < steps + 1 implies (
                        #[trigger] old(self)@.after_steps(prog@, longer.take(k))).running(
                            prog@,
                        ) by {
                            if k < steps {
                                assert(longer.take(k) =~= drawn.take(k));
                            }
                        }
                        drawn = longer;
                    }
                    steps = steps + 1;
                },
                Err(e) => {
                    assert(self@ == old(self)@.after_steps(prog@, drawn));
                    assert(old(self)@.reaches(prog@, self@, steps as nat));
                    return Err(e);
                },
            }
        }
    }
}


/// Adding three numbers in two wrapping additions gives the sum modulo
/// 2^16, and one of the two additions overflows exactly when the sum is
/// 2^16 or more. This is the carry of `adc`, with the carry flag as the
/// third number, and of `add3`.
pub proof fn lemma_carry_of_two_additions(a: u16, b: u16, c: u16)
    ensures
        wrap16(wrap16(a + b) + c) == wrap16(a + b + c),
        (a + b >= 0x1_0000 || wrap16(a + b) + c >= 0x1_0000) <==> a + b + c >= 0x1_0000,
{
}

/// Subtracting a number and then a borrow of zero or one in two wrapping
/// subtractions gives the difference modulo 2^16, and one of the two
/// subtractions borrows exactly when the difference is negative. This is
/// the carry of `subc`.
pub proof fn lemma_borrow_of_two_subtractions(a: u16, b: u16, borrow: u16)
    requires
        borrow <= 1,
    ensures
        wrap16(wrap16(a - b) - borrow) == wrap16(a - b - borrow),
        (a < b || wrap16(a - b) < borrow) <==> a - b - borrow < 0,
{
}

/// Negation modulo 2^16 is the complement plus one.
pub proof fn lemma_negation_is_complement_plus_one(a: u16)
    ensures
        wrap16(-a) == wrap16(!a + 1),
{
    assert(!a == 0xFFFF - a) by (bit_vector);
}

impl CpuModel {
    /// `add` writes the sum of its two source registers modulo 2^16 to its
    /// target. The carry flag tells whether the sum reached 2^16, the zero
    /// flag whether the value written is zero. Nothing else changes but the
    /// program counter, which moves on by one.
    pub proof fn lemma_add(self, operands: BinaryOp, fresh_rng: u16)
        requires
            self.well_formed(),
            operands.well_formed(),
            !self.received_halt,
        ensures
            ({
                let a = self.register(operands.source_a);
                let b = self.register(operands.source_b);
                let after = self.step(Operation::Add(operands), fresh_rng);
                &&& after.register(operands.target) == (a + b) % 0x1_0000
                &&& after.flags.carry == (a + b >= 0x1_0000)
                &&& after.flags.zero == (after.register(operands.target) == 0)
                &&& after.flags.overflow == self.flags.overflow
                &&& forall|r: Register|
                    r < REGISTER_COUNT && r != operands.target ==> after.register(r)
                        == self.register(r)
                &&& after.pcounter == wrap16(self.pcounter + 1)
                &&& after.ram == self.ram
                &&& after.istream == self.istream
                &&& after.ostream == self.ostream
                &&& after.rng_state == self.rng_state
                &&& !after.received_halt
            }),
    {
    }

    /// `inc` adds one to its source register, whatever its target is. From
    /// 0xFFFF the register wraps to zero, and the carry and zero flags are
    /// set; from every other value the carry flag is cleared.
    pub proof fn lemma_inc(self, operands: UnaryOp, fresh_rng: u16)
        requires
            self.well_formed(),
            operands.well_formed(),
            !self.received_halt,
        ensures
            ({
                let a = self.register(operands.source_a);
                let after = self.step(Operation::Inc(operands), fresh_rng);
                &&& after.register(operands.source_a) == (a + 1) % 0x1_0000
                &&& a == 0xFFFF ==> after.register(operands.source_a) == 0 && after.flags.carry
                    && after.flags.zero
                &&& a != 0xFFFF ==> after.register(operands.source_a) == a + 1
                    && !after.flags.carry && !after.flags.zero
                &&& forall|r: Register|
                    r < REGISTER_COUNT && r != operands.source_a ==> after.register(r)
                        == self.register(r)
            }),
    {
    }

    /// A step of a halted CPU changes nothing, whatever the operation and
    /// the program.
    pub proof fn lemma_halted_step_changes_nothing(
        self,
        op: Operation,
        program: Seq<Slot>,
        fresh_rng: u16,
    )
        requires
            self.received_halt,
        ensures
            self.step(op, fresh_rng) == self,
            self.program_step(program, fresh_rng) == self,
    {
    }

    /// `hlt` halts the CPU, and from then on no step changes its state.
    pub proof fn lemma_halt_is_final(self, op: Operation, fresh_rng: u16, later_rng: u16)
        requires
            !self.received_halt,
        ensures
            self.step(Operation::Halt, fresh_rng).received_halt,
            self.step(Operation::Halt, fresh_rng).step(op, later_rng) == self.step(
                Operation::Halt,
                fresh_rng,
            ),
    {
    }

    /// A store to the terminal's write port appends exactly one character
    /// to the output stream: the one with the code in the data register.
    /// A store to the terminal's clear port after it, of whatever value,
    /// leaves the output stream empty.
    pub proof fn lemma_terminal_write_then_clear(
        self,
        write_address: Register,
        write_data: Register,
        clear_address: Register,
        clear_data: Register,
        fresh_rng: u16,
        later_rng: u16,
    )
        requires
            self.well_formed(),
            write_address < REGISTER_COUNT,
            write_data < REGISTER_COUNT,
            clear_address < REGISTER_COUNT,
            clear_data < REGISTER_COUNT,
            !self.received_halt,
            self.register(write_address) == PORT_TTY_WRITE,
        ensures
            ({
                let written = self.step(
                    Operation::Store {
                        address_register: write_address,
                        data_register: write_data,
                    },
                    fresh_rng,
                );
                let cleared = written.step(
                    Operation::Store {
                        address_register: clear_address,
                        data_register: clear_data,
                    },
                    later_rng,
                );
                &&& written.ostream == self.ostream.push(char_of_code(self.register(write_data)))
                &&& written.ostream.len() == self.ostream.len() + 1
                &&& written.istream == self.istream
                &&& written.register(clear_address) == PORT_TTY_CLEAR ==> cleared.ostream.len()
                    == 0
            }),
    {
    }

    /// A load from the keyboard port while the input stream is empty gives
    /// zero and leaves the input stream empty. While it is not empty, the
    /// load gives the low sixteen bits of the first character's code and
    /// takes that character off the stream.
    pub proof fn lemma_keyboard_read(self, target: Register, address: Register, fresh_rng: u16)
        requires
            self.well_formed(),
            target < REGISTER_COUNT,
            address < REGISTER_COUNT,
            !self.received_halt,
            self.register(address) == PORT_KEY_READ,
        ensures
            ({
                let after = self.step(
                    Operation::Load {
                        target_register: target,
                        source: LoadSource::RAM { address_register: address },
                    },
                    fresh_rng,
                );
                &&& self.istream.len() == 0 ==> after.register(target) == 0 && after.istream.len()
                    == 0
                &&& self.istream.len() > 0 ==> after.register(target) == self.istream[0] as int
                    % 0x1_0000 && after.istream == self.istream.drop_first()
                &&& after.ostream == self.ostream
            }),
    {
    }

    /// A load from an address at or above 0x8000 that is neither the
    /// keyboard port nor the generator's read port gives zero, and a store
    /// to an address at or above 0x8008 changes nothing but the program
    /// counter.
    pub proof fn lemma_unused_ports(
        self,
        first: Register,
        second: Register,
        fresh_rng: u16,
    )
        requires
            self.well_formed(),
            first < REGISTER_COUNT,
            second < REGISTER_COUNT,
            !self.received_halt,
        ensures
            ({
                let port = self.register(second);
                let loaded = self.step(
                    Operation::Load {
                        target_register: first,
                        source: LoadSource::RAM { address_register: second },
                    },
                    fresh_rng,
                );
                let stored = self.step(
                    Operation::Store { address_register: second, data_register: first },
                    fresh_rng,
                );
                &&& port >= 0x8000 && port != PORT_KEY_READ && port != PORT_RNG_READ
                    ==> loaded.register(first) == 0
                &&& port >= 0x8008 ==> stored == CpuModel {
                    pcounter: wrap16(self.pcounter + 1),
                    ..self
                }
            }),
    {
    }
}

} // verus!
