//! The panel that shows the program, one instruction to a row.

use crate::digits::{hex_digits, push_hex_padded, zero_padded};
use crate::program::Program;
use vstd::prelude::*;

verus! {

/// The state of the program panel. The rows from `viewport_begin` up to,
/// not including, `viewport_end` are in view.
#[derive(Debug, PartialEq, Eq, Clone, Copy)]
pub struct PmemTableState {
    pub selected: u32,
    pub viewport_begin: u32,
    pub viewport_end: u32,
    pub max_visible_lines: u32,
    pub focus_executing: bool,
    pub is_focussed: bool,
}

impl Default for PmemTableState {
    /// The panel shows 24 rows from the first on and follows the
    /// instruction that is being executed.
    fn default() -> (state: Self)
        ensures
            state == (PmemTableState {
                selected: 10,
                viewport_begin: 0,
                viewport_end: 24,
                max_visible_lines: 24,
                focus_executing: true,
                is_focussed: false,
            }),
    {
        PmemTableState {
            selected: 10,
            viewport_begin: 0,
            viewport_end: 24,
            max_visible_lines: 24,
            focus_executing: true,
            is_focussed: false,
        }
    }
}

/// The row that lies `offset` rows behind `position`, kept between zero
/// and the largest signed 32-bit number. A position above that number
/// counts as negative, as it does when read as a signed number.
pub open spec fn position_moved_by(position: u32, offset: int) -> u32 {
    let signed: int = if position > i32::MAX {
        position - 0x1_0000_0000
    } else {
        position as int
    };
    if signed + offset < 0 {
        0
    } else if signed + offset > i32::MAX {
        i32::MAX as u32
    } else {
        (signed + offset) as u32
    }
}

/// `a + b`, or the largest 32-bit number where the sum is above it.
pub open spec fn sum_capped(a: u32, b: u32) -> u32 {
    if a + b > u32::MAX {
        u32::MAX
    } else {
        (a + b) as u32
    }
}

/// `a - b`, or zero where the difference is negative.
pub open spec fn difference_floored(a: u32, b: u32) -> u32 {
    if a < b {
        0
    } else {
        (a - b) as u32
    }
}

/// The row that `selected` names in a program of `program_len`
/// instructions: itself, or the last row where it lies beyond the end.
pub open spec fn selection_within(selected: u32, program_len: nat) -> u32 {
    if 0 < program_len <= selected {
        (program_len - 1) as u32
    } else {
        selected
    }
}

/// Where the view begins once it has followed `focus`. A focus out of
/// view brings the view to four rows above it. A focus within ten rows of
/// the top moves the view up by one row, a focus within ten rows of the
/// bottom moves it down by one.
pub open spec fn viewport_following(begin: u32, end: u32, focus: u32) -> u32 {
    if !(begin <= focus < end) {
        difference_floored(focus, 4)
    } else if focus <= begin + 10 {
        difference_floored(begin, 1)
    } else if focus >= end - 10 {
        sum_capped(begin, 1)
    } else {
        begin
    }
}

/// The row of the program panel at one address.
pub struct PmemRow {
    /// The address: four hexadecimal digits in lower case.
    pub address: String,
    /// The instruction word: five hexadecimal digits in lower case.
    pub word: String,
    /// The disassembly of the operation.
    pub assembly: String,
    /// Whether a breakpoint is set here.
    pub breakpoint: bool,
}

impl PmemTableState {
    /// This state after scrolling by `offset` rows: the view and the
    /// selection move together.
    pub open spec fn scrolled(self, offset: i32) -> PmemTableState {
        let begin = position_moved_by(self.viewport_begin, offset as int);
        PmemTableState {
            selected: position_moved_by(self.selected, offset as int),
            viewport_begin: begin,
            viewport_end: sum_capped(begin, self.max_visible_lines),
            ..self
        }
    }

    /// This state after the view has been brought up to date for drawing,
    /// with the program counter at `program_counter` and a program of
    /// `program_len` instructions. Where the panel follows the instruction
    /// that is being executed, that instruction becomes the selection.
    pub open spec fn followed(self, program_counter: u16, program_len: nat) -> PmemTableState {
        let focus = if self.focus_executing {
            program_counter as u32
        } else {
            selection_within(self.selected, program_len)
        };
        let begin = viewport_following(self.viewport_begin, self.viewport_end, focus);
        PmemTableState {
            selected: focus,
            viewport_begin: begin,
            viewport_end: sum_capped(begin, self.max_visible_lines),
            ..self
        }
    }

    /// Moves the view and the selection by `offset` rows.
    pub fn scroll(&mut self, offset: i32)
        ensures
            *final(self) == old(self).scrolled(offset),
    {
        self.viewport_begin = move_position(self.viewport_begin, offset);
        self.viewport_end = self.viewport_begin.saturating_add(self.max_visible_lines);
        self.selected = move_position(self.selected, offset);
    }

    /// Brings the view up to date before the panel is drawn.
    pub fn follow(&mut self, program_counter: u16, program_len: usize)
        ensures
            *final(self) == old(self).followed(program_counter, program_len as nat),
    {
        let focus: u32 = if self.focus_executing {
            program_counter as u32
        } else if 0 < program_len && program_len <= self.selected as usize {
            (program_len - 1) as u32
        } else {
            self.selected
        };
        let begin: u32 = self.viewport_begin;
        let end: u32 = self.viewport_end;
        if !(begin <= focus && focus < end) {
            self.viewport_begin = focus.saturating_sub(4);
        } else if focus - begin <= 10 {
            self.viewport_begin = begin.saturating_sub(1);
        } else if end - focus <= 10 {
            self.viewport_begin = begin.saturating_add(1);
        }
        self.selected = focus;
        self.viewport_end = self.viewport_begin.saturating_add(self.max_visible_lines);
    }

    /// The rows to draw for a program of `program_len` instructions: the
    /// part of the view that lies within the program, from the first
    /// number up to, not including, the second.
    pub fn visible_range(&self, program_len: usize) -> (range: (u32, u32))
        ensures
            range.0 == if self.viewport_begin <= program_len {
                self.viewport_begin
            } else {
                program_len as u32
            },
            range.1 == if self.viewport_end <= program_len {
                self.viewport_end
            } else {
                program_len as u32
            },
    {
        let begin: u32 = if self.viewport_begin as usize <= program_len {
            self.viewport_begin
        } else {
            program_len as u32
        };
        let end: u32 = if self.viewport_end as usize <= program_len {
            self.viewport_end
        } else {
            program_len as u32
        };
        (begin, end)
    }
}

/// The row that lies `offset` rows behind `position`.
fn move_position(position: u32, offset: i32) -> (moved: u32)
    ensures
        moved == position_moved_by(position, offset as int),
{
    let signed: i64 = if position > 0x7FFF_FFFF {
        position as i64 - 0x1_0000_0000
    } else {
        position as i64
    };
    let sum: i64 = signed + offset as i64;
    if sum < 0 {
        0
    } else if sum > 0x7FFF_FFFF {
        0x7FFF_FFFF
    } else {
        sum as u32
    }
}

/// The row of the program panel at `address`, or `None` beyond the end of
/// the program.
pub fn row_at(program: &Program, address: u32) -> (row: Option<PmemRow>)
    ensures
        address >= program@.len() ==> row is None,
        address < program@.len() ==> row is Some,
        row matches Some(r) ==> {
            &&& r.address@ == zero_padded(hex_digits(address as nat, false), 4)
            &&& r.word@ == zero_padded(
                hex_digits(program@[address as int].word.buffer as nat, false),
                5,
            )
            &&& r.assembly@ == program@[address as int].operation().assembly_text()
            &&& r.breakpoint == program@[address as int].breakpoint
        },
{
    match (program.instruction_word(address as usize), program.operation(address as usize)) {
        (Some(word), Some(operation)) => {
            let mut address_text = String::new();
            push_hex_padded(&mut address_text, address, 4, false);
            let mut word_text = String::new();
            push_hex_padded(&mut word_text, word.buffer, 5, false);
            assert(address_text@ =~= zero_padded(hex_digits(address as nat, false), 4));
            assert(word_text@ =~= zero_padded(hex_digits(word.buffer as nat, false), 5));
            Some(
                PmemRow {
                    address: address_text,
                    word: word_text,
                    assembly: operation.get_assembly_string(),
                    breakpoint: program.is_breakpoint(address as usize),
                },
            )
        },
        _ => None,
    }
}

} // verus!
