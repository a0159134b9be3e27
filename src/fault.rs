use vstd::prelude::*;

verus! {

/// Why the machine stopped on a fault. Each leaves the state readable by the host.
#[derive(Debug, Clone, Copy, PartialEq, Eq, Structural)]
pub enum Fault {
    /// A call with sixteen return addresses already on the stack.
    StackOverflow,
    /// A return with no return address on the stack.
    StackUnderflow,
    /// A memory access (through `I` or the program counter) outside the 4096-byte memory.
    AddressingFault,
    /// A program image longer than the 3584 bytes above address 0x200.
    ProgramTooLarge,
}

} // verus!
