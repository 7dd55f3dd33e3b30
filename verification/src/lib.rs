//! A CHIP-8 virtual machine: state, timers and the instruction dispatcher.
//!
//! [`Chip8`] is the machine. A host builds it from a [`Chip8Config`], puts a
//! program into it, tells it about keys, and calls [`Chip8::update`] once
//! per frame with the time that has passed.
//!
//! What the machine does is written down in [`model`], as functions on a
//! mathematical [`model::Machine`]; every function of [`Chip8`] is proved to
//! do to its view what the model says. [`laws`] holds what follows from the
//! model for every state.

pub mod config;
pub mod error;
pub mod instruction;
pub mod laws;
pub mod machine;
pub mod model;
pub mod timer;

pub use config::Chip8Config;
pub use error::Chip8Error;
pub use instruction::Instruction;
pub use machine::Chip8;
pub use timer::Timer;
