//! An interpreter core for a small 8-bit virtual machine with a 4 KB address
//! space, sixteen registers, an index register, a call stack, two countdown
//! timers, a 64x32 monochrome display and a sixteen-key pad.
//!
//! The library is verified with Verus. `state` holds the mathematical model
//! of the machine, against which `engine` and `machine` are specified;
//! `laws` holds what is proved of the model itself. `scheduler` decides the
//! order of a running machine's work and leaves the work to its caller.

pub mod opcode;
pub mod console;
pub mod state;
pub mod random;
pub mod engine;
pub mod machine;
pub mod scheduler;
pub mod laws;
pub mod text;
pub mod trace;
pub mod cartridge;
