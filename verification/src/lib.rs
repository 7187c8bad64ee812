//! A terminal countdown timer, split into a verified core:
//! duration parsing, the timer state machine, and the frame text.

pub mod digits;
pub mod parser;
pub mod render;
pub mod timer;
