use vstd::prelude::*;

pub mod display;
pub mod fault;
pub mod instruction;
pub mod processor;
pub mod registers;
pub mod stack;

pub use display::Display;
pub use fault::Fault;
pub use instruction::{decode, Instruction};
pub use processor::{Processor, Status};
pub use registers::Registers;
pub use stack::Stack;
