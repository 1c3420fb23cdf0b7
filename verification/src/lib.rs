//! An emulator for a small 16-bit CPU: instruction words, their decoding into
//! operations, programs, and the interpreter that executes them; beside
//! them the text form of programs, and the state and the decisions of a
//! user interface that steps through a program.

pub mod decoder;
pub mod digits;
pub mod frontend;
pub mod hex_parser;
pub mod ir;
pub mod program;
pub mod runtime;
pub mod util;
