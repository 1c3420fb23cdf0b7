//! The panel that shows the registers and the flags.

use crate::digits::{decimal, decimal_digits, prefixed_hex_digits, prefixed_upper_hex};
use vstd::prelude::*;

verus! {

/// The state of the registers panel.
#[derive(Debug, PartialEq, Eq, Clone, Copy)]
pub struct RegistersDisplayState {
    pub use_hex: bool,
}

impl Default for RegistersDisplayState {
    /// Numbers are shown in hexadecimal.
    fn default() -> (state: Self)
        ensures
            state.use_hex,
    {
        RegistersDisplayState { use_hex: true }
    }
}

impl RegistersDisplayState {
    /// How the panel writes `num`: in upper-case hexadecimal behind `0x`,
    /// or in decimal.
    pub open spec fn number_text(self, num: u16) -> Seq<char> {
        if self.use_hex {
            prefixed_hex_digits(num as nat, true)
        } else {
            decimal_digits(num as nat)
        }
    }

    /// The text that the panel shows for `num`.
    pub fn get_number_repr(&self, num: u16) -> (text: String)
        ensures
            text@ == self.number_text(num),
    {
        if self.use_hex {
            prefixed_upper_hex(num as u32)
        } else {
            decimal(num as u64)
        }
    }
}

} // verus!
