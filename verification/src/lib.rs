//! Live progress reporting for a terminal: bars and spinners stacked in one
//! block of rows, kept as plain state that answers every update with the list
//! of paint steps to carry out.

pub mod errors;
pub mod paint;
pub mod terminal;
pub mod progressbar;
pub mod multiprogress;
