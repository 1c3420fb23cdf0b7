//! The state of the user interface and the decisions it takes. Drawing and
//! reading keys are left to the program around the library.

pub mod app;
pub mod log;
pub mod widgets;
