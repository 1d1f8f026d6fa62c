//! A CHIP-8 virtual machine: memory, registers, call stack, timers, keypad and
//! a 64x32 monochrome display, with the meaning of every instruction stated
//! as a function on a mathematical model of the machine and proved of the code.
//!
//! * `model` holds the model: `MachineState` and, for every operation of the
//!   machine, the function from a state to the next.
//! * `instruction` decodes instruction words.
//! * `machine` holds `Chip8`, the machine that runs; each of its methods is
//!   proved to do to the machine what the model says.
//! * `laws` proves what holds of every machine.
//! * `keymap` maps host keys to the keypad.
//!
//! Where the instruction set leaves a choice, this machine makes it so:
//!
//! * A sprite wraps around both edges of the display: its pixel in column
//!   `col` of row `row` lands at ((Vx + col) mod 64, (Vy + row) mod 32).
//! * An instruction that writes both a result and the flag VF computes
//!   both from the registers as it found them and writes them in the order
//!   its description gives; with x = F the later write stands.
//! * A jump or call to an odd address is accepted; instructions are fetched
//!   where the program counter points.
//! * A key number above F in `Ex9E` or `ExA1` is a fault.
//! * A fault leaves the machine exactly as it was before the operation.

pub mod error;
pub mod instruction;
pub mod model;
mod rng;
pub mod machine;
pub mod keymap;
pub mod laws;

pub use error::Chip8Error;
pub use instruction::{decode, Instruction};
pub use keymap::keymaps;
pub use machine::Chip8;
pub use model::RunState;
