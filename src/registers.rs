use vstd::prelude::*;

verus! {

/// Address at which programs are loaded and execution starts.
pub const PROGRAM_START: u16 = 0x200;

/// The register file: `V0`..`VF`, the index register, both timers and the program counter.
pub struct Registers {
    pub v: [u8; 16],
    pub i: u16,
    pub dt: u8,
    pub st: u8,
    pub pc: u16,
}

impl Registers {
    pub fn new() -> (r: Self)
        ensures
            forall|k: int| 0 <= k < 16 ==> r.v@[k] == 0,
            r.i == 0,
            r.dt == 0,
            r.st == 0,
            r.pc == PROGRAM_START,
    {
        Self { v: [0; 16], i: 0, dt: 0, st: 0, pc: PROGRAM_START }
    }
}

} // verus!
