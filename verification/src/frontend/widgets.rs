//! The state behind each panel of the user interface.

pub mod keybuffer;
pub mod pmem;
pub mod ram;
pub mod registers;
