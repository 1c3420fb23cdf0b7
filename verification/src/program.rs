//! A loaded program: instruction words, the operations they decode to, and
//! a breakpoint flag for each.

use crate::decoder::{word_of_bytes, InstructionWord, Opcode, WORD_MASK};
use crate::ir::Operation;
use vstd::prelude::*;
use vstd::std_specs::convert::FromSpecImpl;

verus! {

/// One address of a program as a mathematical value: the instruction word
/// there and whether a breakpoint is set on it.
pub struct Slot {
    pub word: InstructionWord,
    pub breakpoint: bool,
}

impl Slot {
    /// The operation at this address: what its instruction word decodes to.
    pub open spec fn operation(self) -> Operation {
        self.word.decoded()
    }
}

/// A program in program memory. Address `i` holds the `i`-th instruction
/// word that was loaded, the operation it decodes to, and a breakpoint flag.
pub struct Program {
    operations: Vec<Operation>,
    breakpoints: Vec<bool>,
    instruction_words: Vec<InstructionWord>,
}

impl View for Program {
    type V = Seq<Slot>;

    closed spec fn view(&self) -> Seq<Slot> {
        Seq::new(
            self.instruction_words@.len(),
            |i: int| Slot { word: self.instruction_words@[i], breakpoint: self.breakpoints@[i] },
        )
    }
}

/// The program that loading `words` gives: one address for each, in order,
/// with the low 20 bits of the word and no breakpoint.
pub open spec fn loaded_from_words(words: Seq<u32>) -> Seq<Slot> {
    Seq::new(
        words.len(),
        |i: int| Slot { word: InstructionWord { buffer: words[i] & WORD_MASK }, breakpoint: false },
    )
}

/// The program that loading `tokens` gives: one address for each, in
/// order, with the word that the three bytes spell and no breakpoint.
pub open spec fn loaded_from_tokens(tokens: Seq<[u8; 3]>) -> Seq<Slot> {
    Seq::new(
        tokens.len(),
        |i: int| Slot { word: InstructionWord { buffer: word_of_bytes(tokens[i]) }, breakpoint: false },
    )
}

impl Program {
    /// The three vectors are equally long, and each operation is what the
    /// instruction word at its address decodes to.
    #[verifier::type_invariant]
    spec fn consistent(self) -> bool {
        &&& self.operations@.len() == self.instruction_words@.len()
        &&& self.breakpoints@.len() == self.instruction_words@.len()
        &&& forall|i: int|
            0 <= i < self.instruction_words@.len() ==> #[trigger] self.operations@[i]
                == self.instruction_words@[i].decoded()
    }

    /// A program without instructions.
    pub fn new() -> (program: Program)
        ensures
            program@ == Seq::<Slot>::empty(),
    {
        let program = Program {
            operations: Vec::new(),
            breakpoints: Vec::new(),
            instruction_words: Vec::new(),
        };
        assert(program@ =~= Seq::<Slot>::empty());
        program
    }

    /// Loads a program from instruction words held in the low 20 bits of
    /// each number.
    pub fn from_words(coll: &[u32]) -> (program: Program)
        ensures
            program@ == loaded_from_words(coll@),
    {
        let mut operations: Vec<Operation> = Vec::new();
        let mut breakpoints: Vec<bool> = Vec::new();
        let mut instruction_words: Vec<InstructionWord> = Vec::new();
        let mut i: usize = 0;
        while i < coll.len()
            invariant
                i <= coll@.len(),
                operations@.len() == i,
                breakpoints@.len() == i,
                instruction_words@.len() == i,
                forall|k: int|
                    0 <= k < i ==> #[trigger] operations@[k] == instruction_words@[k].decoded(),
                forall|k: int|
                    0 <= k < i ==> (#[trigger] instruction_words@[k]).buffer == coll@[k] & WORD_MASK,
                forall|k: int| 0 <= k < i ==> !#[trigger] breakpoints@[k],
            decreases coll@.len() - i,
        {
            let word = InstructionWord::from_u32(coll[i]);
            operations.push(word.decode());
            breakpoints.push(false);
            instruction_words.push(word);
            i = i + 1;
        }
        let program = Program { operations, breakpoints, instruction_words };
        assert(program@ =~= loaded_from_words(coll@));
        program
    }

    /// Loads a program from tokens of three bytes, each spelling an
    /// instruction word with its most significant byte first.
    pub fn from_tokens(coll: &[[u8; 3]]) -> (program: Program)
        ensures
            program@ == loaded_from_tokens(coll@),
    {
        let mut operations: Vec<Operation> = Vec::new();
        let mut breakpoints: Vec<bool> = Vec::new();
        let mut instruction_words: Vec<InstructionWord> = Vec::new();
        let mut i: usize = 0;
        while i < coll.len()
            invariant
                i <= coll@.len(),
                operations@.len() == i,
                breakpoints@.len() == i,
                instruction_words@.len() == i,
                forall|k: int|
                    0 <= k < i ==> #[trigger] operations@[k] == instruction_words@[k].decoded(),
                forall|k: int|
                    0 <= k < i ==> (#[trigger] instruction_words@[k]).buffer == word_of_bytes(
                        coll@[k],
                    ),
                forall|k: int| 0 <= k < i ==> !#[trigger] breakpoints@[k],
            decreases coll@.len() - i,
        {
            let word = InstructionWord::from_bytes(coll[i]);
            operations.push(word.decode());
            breakpoints.push(false);
            instruction_words.push(word);
            i = i + 1;
        }
        let program = Program { operations, breakpoints, instruction_words };
        assert(program@ =~= loaded_from_tokens(coll@));
        program
    }

    /// The number of instructions.
    pub fn len(&self) -> (length: usize)
        ensures
            length == self@.len(),
    {
        self.instruction_words.len()
    }

    /// Tells whether the program has no instructions.
    pub fn is_empty(&self) -> (empty: bool)
        ensures
            empty == (self@.len() == 0),
    {
        self.instruction_words.len() == 0
    }

    /// The operation at `address`, or `None` beyond the end of the program.
    pub fn operation(&self, address: usize) -> (op: Option<Operation>)
        ensures
            address < self@.len() ==> op == Some(self@[address as int].operation()),
            address >= self@.len() ==> op is None,
            op matches Some(found) ==> found.well_formed(),
    {
        proof {
            use_type_invariant(self);
        }
        if address < self.operations.len() {
            proof {
                self.instruction_words@[address as int].lemma_decoded_well_formed();
            }
            Some(self.operations[address])
        } else {
            None
        }
    }

    /// The instruction word at `address`, or `None` beyond the end of the
    /// program.
    pub fn instruction_word(&self, address: usize) -> (word: Option<InstructionWord>)
        ensures
            address < self@.len() ==> word == Some(self@[address as int].word),
            address >= self@.len() ==> word is None,
    {
        if address < self.instruction_words.len() {
            Some(self.instruction_words[address])
        } else {
            None
        }
    }

    /// Tells whether a breakpoint is set at `address`. There is none beyond
    /// the end of the program.
    pub fn is_breakpoint(&self, address: usize) -> (set: bool)
        ensures
            set == (address < self@.len() && self@[address as int].breakpoint),
    {
        proof {
            use_type_invariant(self);
        }
        address < self.breakpoints.len() && self.breakpoints[address]
    }

    /// Sets or clears the breakpoint at `address`. Beyond the end of the
    /// program nothing changes.
    pub fn set_breakpoint(&mut self, address: usize, on: bool)
        ensures
            address < old(self)@.len() ==> final(self)@ == old(self)@.update(
                address as int,
                Slot { word: old(self)@[address as int].word, breakpoint: on },
            ),
            address >= old(self)@.len() ==> final(self)@ == old(self)@,
    {
        proof {
            use_type_invariant(&*self);
        }
        if address < self.breakpoints.len() {
            self.breakpoints[address] = on;
            assert(self@ =~= old(self)@.update(
                address as int,
                Slot { word: old(self)@[address as int].word, breakpoint: on },
            ));
        }
    }

    /// Flips the breakpoint at `address`. Beyond the end of the program
    /// nothing changes.
    pub fn toggle_breakpoint(&mut self, address: usize)
        ensures
            address < old(self)@.len() ==> final(self)@ == old(self)@.update(
                address as int,
                Slot {
                    word: old(self)@[address as int].word,
                    breakpoint: !old(self)@[address as int].breakpoint,
                },
            ),
            address >= old(self)@.len() ==> final(self)@ == old(self)@,
    {
        let on = !self.is_breakpoint(address);
        self.set_breakpoint(address, on);
    }
}

impl Default for Program {
    /// A program without instructions.
    fn default() -> (program: Self)
        ensures
            program@ == Seq::<Slot>::empty(),
    {
        Program::new()
    }
}

impl<'a> From<&'a [u32]> for Program {
    /// Loads a program from instruction words, as `from_words` does.
    fn from(coll: &'a [u32]) -> (program: Self)
        ensures
            program@ == loaded_from_words(coll@),
    {
        Program::from_words(coll)
    }
}

impl<'a> FromSpecImpl<&'a [u32]> for Program {
    open spec fn obeys_from_spec() -> bool {
        false
    }

    open spec fn from_spec(coll: &'a [u32]) -> Self {
        arbitrary()
    }
}

impl<'a> From<&'a [[u8; 3]]> for Program {
    /// Loads a program from tokens of three bytes, as `from_tokens` does.
    fn from(coll: &'a [[u8; 3]]) -> (program: Self)
        ensures
            program@ == loaded_from_tokens(coll@),
    {
        Program::from_tokens(coll)
    }
}

impl<'a> FromSpecImpl<&'a [[u8; 3]]> for Program {
    open spec fn obeys_from_spec() -> bool {
        false
    }

    open spec fn from_spec(coll: &'a [[u8; 3]]) -> Self {
        arbitrary()
    }
}

/// Each address of a program loaded from tokens holds the word that its
/// token spells, and disassembling the operation there gives the mnemonic
/// that the table has for the opcode of that word. `DBG` is the one opcode
/// left out: it decodes to `Noop`.
pub proof fn lemma_loaded_program_disassembles_to_its_opcodes(tokens: Seq<[u8; 3]>, address: int)
    requires
        0 <= address < tokens.len(),
    ensures
        ({
            let slot = loaded_from_tokens(tokens)[address];
            &&& slot.word.buffer == word_of_bytes(tokens[address])
            &&& slot.operation().well_formed()
            &&& slot.operation().mnemonic().is_prefix_of(slot.operation().assembly_text())
            &&& slot.word.selected_opcode() != Opcode::DBG ==> slot.operation().mnemonic()
                == slot.word.selected_opcode().mnemonic()
            &&& slot.word.selected_opcode() == Opcode::DBG ==> slot.operation().mnemonic()
                == "nop"@
        }),
{
    let slot = loaded_from_tokens(tokens)[address];
    slot.word.lemma_decoded_well_formed();
    slot.operation().lemma_assembly_begins_with_mnemonic();
    if slot.word.selected_opcode() != Opcode::DBG {
        slot.word.lemma_decoded_mnemonic_is_opcode_mnemonic();
    } else {
        slot.word.lemma_debug_and_unknown_disassemble_as_nop();
    }
}

} // verus!
