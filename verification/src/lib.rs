//! An instruction-set emulator for a 32-bit load/store architecture:
//! sixteen general registers, a flat memory of 2^24 words with 24-bit
//! address wraparound, sixteen opcode classes, condition flags, a
//! descending stack, a two-word calling convention, and a system-call
//! vector. The step function is specified against a mathematical model
//! of the machine (`semantics`), and the architecture's laws (frame
//! conditions, flag discipline, stack and call round trips) are proved
//! in `props`.

pub mod cpu;
pub mod decode;
pub mod props;
pub mod registers;
pub mod semantics;
