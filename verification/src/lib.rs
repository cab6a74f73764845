//! A CHIP-8 interpreter core: machine state, instruction decoding and the
//! fetch-decode-execute cycle, with the cycle's behaviour stated over a
//! mathematical model of the machine.

mod entropy;
pub mod font;
pub mod instruction;
pub mod laws;
pub mod machine;
pub mod sprite;
pub mod state;
