//! The panel that shows the memory, four cells to a row.

use crate::digits::{hex_digits, push_hex_padded, zero_padded};
use crate::runtime::RAM_SIZE;
use vstd::prelude::*;

verus! {

/// Number of rows that the memory fills.
pub const RAM_MAX_LINES: u32 = 8192;

/// Number of memory cells in a row.
pub const CELLS_PER_ROW: u32 = 4;

/// The state of the memory panel.
#[derive(Debug, PartialEq, Eq, Clone, Copy)]
pub struct RamTableState {
    pub starting_row: u32,
    pub is_focussed: bool,
}

impl Default for RamTableState {
    /// The panel begins at the first row, without the keyboard.
    fn default() -> (state: Self)
        ensures
            state == (RamTableState { starting_row: 0, is_focussed: false }),
    {
        RamTableState { starting_row: 0, is_focussed: false }
    }
}

/// The row that lies `offset` rows behind `row`, going round from the last
/// row to the first and back.
pub open spec fn row_moved_by(row: u32, offset: int) -> u32 {
    ((row + offset) % (RAM_MAX_LINES as int)) as u32
}

/// The text of a number in a cell of the panel: four hexadecimal digits in
/// upper case, with zeros in front.
pub open spec fn cell_text(value: nat) -> Seq<char> {
    zero_padded(hex_digits(value, true), 4)
}

impl RamTableState {
    /// Moves the first row shown by `offset` rows, going round at the ends
    /// of the memory.
    pub fn scroll(&mut self, offset: i32)
        ensures
            final(self).starting_row == row_moved_by(old(self).starting_row, offset as int),
            final(self).starting_row < RAM_MAX_LINES,
            final(self).is_focussed == old(self).is_focussed,
    {
        // 2^31 is a multiple of the number of rows, so adding it keeps the
        // remainder and makes the sum positive.
        let shifted: i64 = self.starting_row as i64 + offset as i64 + 0x8000_0000;
        self.starting_row = (shifted % (RAM_MAX_LINES as i64)) as u32;
    }

    /// Shows the row that holds `address` first. An address beyond the
    /// memory counts as the end of the memory.
    pub fn goto_address(&mut self, address: u32)
        ensures
            address <= RAM_SIZE ==> final(self).starting_row == address / CELLS_PER_ROW,
            address > RAM_SIZE ==> final(self).starting_row == RAM_MAX_LINES,
            final(self).is_focussed == old(self).is_focussed,
    {
        let clamped: u32 = if address > RAM_SIZE as u32 {
            RAM_SIZE as u32
        } else {
            address
        };
        self.starting_row = clamped / CELLS_PER_ROW;
    }

    /// The rows that a panel of `height` lines shows, two of which are its
    /// border: they follow the first row shown, going round at the end of
    /// the memory.
    pub fn visible_rows(&self, height: u16) -> (rows: Vec<u32>)
        ensures
            rows@.len() == if height >= 2 {
                height - 2
            } else {
                0
            },
            forall|k: int|
                0 <= k < rows@.len() ==> #[trigger] rows@[k] == row_moved_by(self.starting_row, k),
    {
        let n_rows: u32 = if height >= 2 {
            (height - 2) as u32
        } else {
            0
        };
        let mut rows: Vec<u32> = Vec::new();
        let mut k: u32 = 0;
        while k < n_rows
            invariant
                k <= n_rows <= 0xFFFF,
                rows@.len() == k,
                forall|j: int|
                    0 <= j < k ==> #[trigger] rows@[j] == row_moved_by(self.starting_row, j),
            decreases n_rows - k,
        {
            let row: u64 = (self.starting_row as u64 + k as u64) % (RAM_MAX_LINES as u64);
            rows.push(row as u32);
            k = k + 1;
        }
        rows
    }
}

/// The texts of one row of the panel: the address of its first cell, then
/// the values of its four cells.
pub fn row_cells(ram: &[u16; RAM_SIZE], memory_row_index: u32) -> (cells: Vec<String>)
    requires
        memory_row_index < RAM_MAX_LINES,
    ensures
        cells@.len() == 1 + CELLS_PER_ROW,
        cells@[0]@ == cell_text((memory_row_index * CELLS_PER_ROW) as nat),
        forall|k: int|
            0 <= k < CELLS_PER_ROW ==> (#[trigger] cells@[1 + k])@ == cell_text(
                ram@[memory_row_index * CELLS_PER_ROW + k] as nat,
            ),
{
    let row_mem_address: u32 = memory_row_index * CELLS_PER_ROW;
    let mut cells: Vec<String> = Vec::new();
    let mut address_text = String::new();
    push_hex_padded(&mut address_text, row_mem_address, 4, true);
    assert(address_text@ =~= cell_text(row_mem_address as nat));
    cells.push(address_text);
    let mut k: u32 = 0;
    while k < CELLS_PER_ROW
        invariant
            k <= CELLS_PER_ROW,
            row_mem_address == memory_row_index * CELLS_PER_ROW,
            memory_row_index < RAM_MAX_LINES,
            cells@.len() == 1 + k,
            cells@[0]@ == cell_text(row_mem_address as nat),
            forall|j: int|
                0 <= j < k ==> (#[trigger] cells@[1 + j])@ == cell_text(
                    ram@[row_mem_address + j] as nat,
                ),
        decreases CELLS_PER_ROW - k,
    {
        let mut text = String::new();
        push_hex_padded(&mut text, ram[(row_mem_address + k) as usize] as u32, 4, true);
        assert(text@ =~= cell_text(ram@[row_mem_address + k] as nat));
        cells.push(text);
        k = k + 1;
    }
    cells
}

} // verus!
