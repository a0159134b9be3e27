use vstd::prelude::*;
use crate::display::{collides, drawn, sprite_height, Display};
use crate::fault::Fault;
use crate::instruction::{decode, decode_spec, op_kk, op_n, op_nnn, op_x, op_y, Instruction};
use crate::registers::{Registers, PROGRAM_START};
use crate::stack::Stack;

verus! {

/// Size of the address space in bytes.
pub const MEMORY_SIZE: usize = 4096;

/// Address of the glyph for hexadecimal digit 0; each glyph is five bytes long.
pub const FONT_BASE: u16 = 0;

/// The built-in glyphs for the hexadecimal digits 0 to F, five rows of four pixels each.
pub const FONT: [u8; 80] = [
    0xF0, 0x90, 0x90, 0x90, 0xF0, 0x20, 0x60, 0x20, 0x20, 0x70,
    0xF0, 0x10, 0xF0, 0x80, 0xF0, 0xF0, 0x10, 0xF0, 0x10, 0xF0,
    0x90, 0x90, 0xF0, 0x10, 0x10, 0xF0, 0x80, 0xF0, 0x10, 0xF0,
    0xF0, 0x80, 0xF0, 0x90, 0xF0, 0xF0, 0x10, 0x20, 0x40, 0x40,
    0xF0, 0x90, 0xF0, 0x90, 0xF0, 0xF0, 0x90, 0xF0, 0x10, 0xF0,
    0xF0, 0x90, 0xF0, 0x90, 0x90, 0xE0, 0x90, 0xE0, 0x90, 0xE0,
    0xF0, 0x80, 0x80, 0x80, 0xF0, 0xE0, 0x90, 0x90, 0x90, 0xE0,
    0xF0, 0x80, 0xF0, 0x80, 0xF0, 0xF0, 0x80, 0xF0, 0x80, 0x80,
];

/// Whether the machine keeps running after a cycle.
#[derive(Debug, Clone, Copy, PartialEq, Eq, Structural)]
pub enum Status {
    Running,
    /// The all-zero opcode was fetched.
    Halted,
}

/// The whole machine state as mathematical values.
pub struct MachineState {
    pub v: Seq<u8>,
    pub i: u16,
    pub dt: u8,
    pub st: u8,
    pub pc: u16,
    pub memory: Seq<u8>,
    pub stack: Seq<u16>,
    pub screen: Seq<bool>,
    pub keys: Seq<bool>,
}

impl MachineState {
    pub open spec fn wf(&self) -> bool {
        &&& self.v.len() == 16
        &&& self.memory.len() == MEMORY_SIZE
        &&& self.stack.len() <= 16
        &&& self.screen.len() == 2048
        &&& self.keys.len() == 16
    }
}

pub open spec fn add8(a: u8, b: u8) -> u8 {
    ((a + b) % 256) as u8
}

pub open spec fn sub8(a: u8, b: u8) -> u8 {
    ((a - b + 256) % 256) as u8
}

pub open spec fn set_v(m: MachineState, x: int, val: u8) -> MachineState {
    MachineState { v: m.v.update(x, val), ..m }
}

/// Writes `Vx` first and the flag register `VF` after it.
pub open spec fn set_v_flag(m: MachineState, x: int, val: u8, flag: u8) -> MachineState {
    MachineState { v: m.v.update(x, val).update(15, flag), ..m }
}

/// Skips the next instruction when `cond` holds.
pub open spec fn skip_if(m: MachineState, cond: bool) -> MachineState {
    if cond {
        MachineState { pc: ((m.pc + 2) % 0x10000) as u16, ..m }
    } else {
        m
    }
}

/// Whether the keypad key named by `key` is held down.
pub open spec fn key_held(keys: Seq<bool>, key: u8) -> bool {
    key < 16 && keys[key as int]
}

/// The lowest held key numbered `from` or above, or 16 if there is none.
pub open spec fn lowest_held(keys: Seq<bool>, from: int) -> int
    decreases 16 - from,
{
    if from >= 16 {
        16
    } else if keys[from] {
        from
    } else {
        lowest_held(keys, from + 1)
    }
}

pub open spec fn flag(b: bool) -> u8 {
    if b { 1 } else { 0 }
}

/// The effect of executing `op` (with the program counter already past it), where `rnd`
/// is the random byte drawn for this step. `Err` leaves the state as it was.
pub open spec fn execute_spec(m: MachineState, op: u16, rnd: u8) -> Result<MachineState, Fault> {
    let x = op_x(op);
    let vx = m.v[op_x(op)];
    let vy = m.v[op_y(op)];
    let kk = op_kk(op);
    let nnn = op_nnn(op);
    match decode_spec(op) {
        Instruction::Cls_00E0 => Ok(MachineState { screen: Seq::new(2048, |p: int| false), ..m }),
        Instruction::Ret_00EE => if m.stack.len() == 0 {
            Err(Fault::StackUnderflow)
        } else {
            Ok(MachineState { pc: m.stack.last(), stack: m.stack.drop_last(), ..m })
        },
        Instruction::Jp_1nnn => Ok(MachineState { pc: nnn, ..m }),
        Instruction::Call_2nnn => if m.stack.len() >= 16 {
            Err(Fault::StackOverflow)
        } else {
            Ok(MachineState { pc: nnn, stack: m.stack.push(m.pc), ..m })
        },
        Instruction::Se_3xkk => Ok(skip_if(m, vx == kk)),
        Instruction::Sne_4xkk => Ok(skip_if(m, vx != kk)),
        Instruction::Se_5xy0 => Ok(skip_if(m, vx == vy)),
        Instruction::Ld_6xkk => Ok(set_v(m, x, kk)),
        Instruction::Add_7xkk => Ok(set_v(m, x, add8(vx, kk))),
        Instruction::Ld_8xy0 => Ok(set_v(m, x, vy)),
        Instruction::Or_8xy1 => Ok(set_v(m, x, vx | vy)),
        Instruction::And_8xy2 => Ok(set_v(m, x, vx & vy)),
        Instruction::Xor_8xy3 => Ok(set_v(m, x, vx ^ vy)),
        Instruction::Add_8xy4 => Ok(set_v_flag(m, x, add8(vx, vy), flag(vx + vy > 255))),
        Instruction::Sub_8xy5 => Ok(set_v_flag(m, x, sub8(vx, vy), flag(vx > vy))),
        Instruction::Shr_8xy6 => Ok(set_v_flag(m, x, vx >> 1u8, vx & 1u8)),
        Instruction::Subn_8xy7 => Ok(set_v_flag(m, x, sub8(vy, vx), flag(vy > vx))),
        Instruction::Shl_8xyE => Ok(set_v_flag(m, x, vx << 1u8, vx >> 7u8)),
        Instruction::Sne_9xy0 => Ok(skip_if(m, vx != vy)),
        Instruction::Ld_Annn => Ok(MachineState { i: nnn, ..m }),
        Instruction::Jp_Bnnn => Ok(MachineState { pc: (nnn + m.v[0]) as u16, ..m }),
        Instruction::Rnd_Cxkk => Ok(set_v(m, x, rnd & kk)),
        Instruction::Drw_Dxyn => if m.i + op_n(op) > MEMORY_SIZE {
            Err(Fault::AddressingFault)
        } else {
            let sprite = m.memory.subrange(m.i as int, m.i + op_n(op));
            Ok(MachineState {
                screen: drawn(m.screen, sprite, vx, vy, op_n(op)),
                v: m.v.update(15, flag(collides(m.screen, sprite, vx, vy, op_n(op)))),
                ..m
            })
        },
        Instruction::Skp_Ex9E => Ok(skip_if(m, key_held(m.keys, vx))),
        Instruction::Sknp_ExA1 => Ok(skip_if(m, !key_held(m.keys, vx))),
        Instruction::Ld_Fx07 => Ok(set_v(m, x, m.dt)),
        Instruction::Ld_Fx0A => if lowest_held(m.keys, 0) < 16 {
            Ok(set_v(m, x, lowest_held(m.keys, 0) as u8))
        } else {
            Ok(MachineState { pc: ((m.pc + 0x10000 - 2) % 0x10000) as u16, ..m })
        },
        Instruction::Ld_Fx15 => Ok(MachineState { dt: vx, ..m }),
        Instruction::Ld_Fx18 => Ok(MachineState { st: vx, ..m }),
        Instruction::Add_Fx1E => Ok(MachineState { i: ((m.i + vx) % 0x10000) as u16, ..m }),
        Instruction::Ld_Fx29 => Ok(MachineState { i: (FONT_BASE + (vx % 16) * 5) as u16, ..m }),
        Instruction::Ld_Fx33 => if m.i + 3 > MEMORY_SIZE {
            Err(Fault::AddressingFault)
        } else {
            Ok(MachineState {
                memory: m.memory.update(m.i as int, vx / 100).update(m.i + 1, (vx / 10) % 10).update(
                    m.i + 2,
                    vx % 10,
                ),
                ..m
            })
        },
        Instruction::Ld_Fx55 => if m.i + x + 1 > MEMORY_SIZE {
            Err(Fault::AddressingFault)
        } else {
            Ok(MachineState {
                memory: Seq::new(
                    MEMORY_SIZE as nat,
                    |a: int| if m.i <= a <= m.i + x { m.v[a - m.i] } else { m.memory[a] },
                ),
                ..m
            })
        },
        Instruction::Ld_Fx65 => if m.i + x + 1 > MEMORY_SIZE {
            Err(Fault::AddressingFault)
        } else {
            Ok(MachineState {
                v: Seq::new(16, |k: int| if k <= x { m.memory[m.i + k] } else { m.v[k] }),
                ..m
            })
        },
        Instruction::Huh => Ok(m),
    }
}

/// The big-endian opcode stored at `pc`.
pub open spec fn opcode_at(memory: Seq<u8>, pc: int) -> u16 {
    (memory[pc] as int * 256 + memory[pc + 1] as int) as u16
}

/// One cycle from `m`: fetch at the program counter (an odd or out-of-memory counter is an
/// addressing fault), advance it by two, halt on the all-zero opcode, else execute. Gives the
/// state after the cycle and its result; a fault while executing keeps the advanced counter.
pub open spec fn cycle_spec(m: MachineState, rnd: u8) -> (MachineState, Result<Status, Fault>) {
    if m.pc % 2 != 0 || m.pc + 2 > MEMORY_SIZE {
        (m, Err(Fault::AddressingFault))
    } else {
        let op = opcode_at(m.memory, m.pc as int);
        let next = MachineState { pc: (m.pc + 2) as u16, ..m };
        if op == 0 {
            (next, Ok(Status::Halted))
        } else {
            match execute_spec(next, op, rnd) {
                Ok(after) => (after, Ok(Status::Running)),
                Err(e) => (next, Err(e)),
            }
        }
    }
}

/// Whether going from `before` to `after` with result `r` is one cycle with random byte `rnd`.
pub open spec fn cycles_as(before: MachineState, after: MachineState, r: Result<Status, Fault>, rnd: u8) -> bool {
    cycle_spec(before, rnd) == (after, r)
}

/// Memory at power-on: the font glyphs from address 0, zero elsewhere.
pub open spec fn initial_memory() -> Seq<u8> {
    Seq::new(MEMORY_SIZE as nat, |a: int| if a < 80 { FONT@[a] } else { 0 })
}

/// `memory` with `data` copied in from the program start address.
pub open spec fn with_program(memory: Seq<u8>, data: Seq<u8>) -> Seq<u8> {
    Seq::new(
        MEMORY_SIZE as nat,
        |a: int| if PROGRAM_START <= a < PROGRAM_START + data.len() { data[a - PROGRAM_START] } else { memory[a] },
    )
}

/// Storing `V0..=Vx` at `I` and then loading `V0..=Vx` back from `I` leaves every register
/// as it was.
pub proof fn store_then_load_restores_registers(m: MachineState, x: u16, rnd1: u8, rnd2: u8)
    requires
        m.wf(),
        x < 16,
        m.i + x + 1 <= MEMORY_SIZE,
    ensures
        ({
            let stored = execute_spec(m, 0xF055u16 | (x << 8u16), rnd1);
            &&& stored is Ok
            &&& execute_spec(stored->Ok_0, 0xF065u16 | (x << 8u16), rnd2) is Ok
            &&& execute_spec(stored->Ok_0, 0xF065u16 | (x << 8u16), rnd2)->Ok_0.v == m.v
        }),
{
    let store = 0xF055u16 | (x << 8u16);
    let load = 0xF065u16 | (x << 8u16);
    assert(store >> 12u16 == 0xFu16 && store & 0x00ffu16 == 0x55u16 && (store & 0x0f00u16) >> 8u16 == x)
        by (bit_vector)
        requires
            x < 16u16,
            store == 0xF055u16 | (x << 8u16),
    ;
    assert(load >> 12u16 == 0xFu16 && load & 0x00ffu16 == 0x65u16 && (load & 0x0f00u16) >> 8u16 == x)
        by (bit_vector)
        requires
            x < 16u16,
            load == 0xF065u16 | (x << 8u16),
    ;
    let stored = execute_spec(m, store, rnd1)->Ok_0;
    let loaded = execute_spec(stored, load, rnd2)->Ok_0;
    assert(loaded.v =~= m.v);
}

/// Whether going from `before` to `after` with result `r` is executing `op` with random
/// byte `rnd`.
pub open spec fn executes_as(before: MachineState, after: MachineState, r: Result<(), Fault>, op: u16, rnd: u8) -> bool {
    match execute_spec(before, op, rnd) {
        Ok(m) => r == Ok::<(), Fault>(()) && after == m,
        Err(e) => r == Err::<(), Fault>(e) && after == before,
    }
}

/// Relies on `rand::random::<u8>`: one byte from the thread-local generator. Nothing is
/// known of its value.
#[verifier::external_body]
fn random_byte() -> (r: u8) {
    rand::random::<u8>()
}

/// The machine: registers, memory, call stack, framebuffer and the keypad as last reported
/// by the host (`keys[k]` holds while key `k` is down).
pub struct Processor {
    pub registers: Registers,
    pub memory: [u8; 4096],
    pub stack: Stack,
    pub display: Display,
    pub keys: [bool; 16],
}

impl Processor {
    pub open spec fn wf(&self) -> bool {
        self.stack.wf()
    }

    pub open spec fn view(&self) -> MachineState {
        MachineState {
            v: self.registers.v@,
            i: self.registers.i,
            dt: self.registers.dt,
            st: self.registers.st,
            pc: self.registers.pc,
            memory: self.memory@,
            stack: self.stack@,
            screen: self.display.buffer@,
            keys: self.keys@,
        }
    }

    /// Sets `Vx`.
    fn set_register(&mut self, x: usize, val: u8)
        requires
            x < 16,
        ensures
            final(self).wf() == old(self).wf(),
            final(self)@ == set_v(old(self)@, x as int, val),
    {
        self.registers.v[x] = val;
        assert(self@.v =~= set_v(old(self)@, x as int, val).v);
    }

    /// Sets `Vx`, then the flag register `VF`.
    fn set_register_and_flag(&mut self, x: usize, val: u8, vf: u8)
        requires
            x < 16,
        ensures
            final(self).wf() == old(self).wf(),
            final(self)@ == set_v_flag(old(self)@, x as int, val, vf),
    {
        self.registers.v[x] = val;
        self.registers.v[15] = vf;
        assert(self@.v =~= set_v_flag(old(self)@, x as int, val, vf).v);
    }

    /// Skips the next instruction when `cond` holds.
    fn skip_when(&mut self, cond: bool)
        ensures
            final(self).wf() == old(self).wf(),
            final(self)@ == skip_if(old(self)@, cond),
    {
        if cond {
            self.registers.pc = self.registers.pc.wrapping_add(2);
        }
    }

    pub fn new() -> (r: Self)
        ensures
            r.wf(),
            r@.v == Seq::new(16, |k: int| 0u8),
            r@.i == 0,
            r@.dt == 0,
            r@.st == 0,
            r@.pc == PROGRAM_START,
            r@.memory == initial_memory(),
            r@.stack == Seq::<u16>::empty(),
            r@.screen == Seq::new(2048, |p: int| false),
            r@.keys == Seq::new(16, |k: int| false),
    {
        let mut memory = [0u8; 4096];
        let mut a: usize = 0;
        while a < 80
            invariant
                a <= 80,
                memory@ =~= Seq::new(MEMORY_SIZE as nat, |b: int| if b < a { FONT@[b] } else { 0 }),
            decreases 80 - a,
        {
            memory[a] = FONT[a];
            a = a + 1;
        }
        let r = Self {
            registers: Registers::new(),
            memory,
            stack: Stack::new(),
            display: Display::new(),
            keys: [false; 16],
        };
        assert(r@.v =~= Seq::new(16, |k: int| 0u8));
        assert(r@.screen =~= Seq::new(2048, |p: int| false));
        assert(r@.keys =~= Seq::new(16, |k: int| false));
        r
    }

    /// Copies a program image to memory from address 0x200. Fails with `ProgramTooLarge`,
    /// changing nothing, when it does not fit below the end of memory.
    pub fn load_rom(&mut self, data: Vec<u8>) -> (r: Result<(), Fault>)
        requires
            old(self).wf(),
        ensures
            final(self).wf(),
            PROGRAM_START + data@.len() > MEMORY_SIZE ==> r == Err::<(), Fault>(Fault::ProgramTooLarge)
                && *final(self) == *old(self),
            PROGRAM_START + data@.len() <= MEMORY_SIZE ==> r == Ok::<(), Fault>(())
                && final(self)@ == (MachineState { memory: with_program(old(self)@.memory, data@), ..old(self)@ }),
    {
        let start = PROGRAM_START as usize;
        if data.len() > MEMORY_SIZE - start {
            return Err(Fault::ProgramTooLarge);
        }
        let mut k: usize = 0;
        while k < data.len()
            invariant
                start == PROGRAM_START,
                start + data@.len() <= MEMORY_SIZE,
                k <= data@.len(),
                self.registers == old(self).registers,
                self.stack == old(self).stack,
                self.display == old(self).display,
                self.keys == old(self).keys,
                self.memory@ =~= Seq::new(
                    MEMORY_SIZE as nat,
                    |a: int| if start <= a < start + k { data@[a - start] } else { old(self).memory@[a] },
                ),
            decreases data@.len() - k,
        {
            self.memory[start + k] = data[k];
            k = k + 1;
        }
        assert(self@.memory =~= with_program(old(self)@.memory, data@));
        Ok(())
    }

    /// The instruction that `instruction` encodes.
    pub fn parse_instruction(&self, instruction: u16) -> (r: Instruction)
        ensures
            r == decode_spec(instruction),
    {
        decode(instruction)
    }

    /// Executes `instruction` (with the program counter already past it), drawing a random
    /// byte for the random-number instruction.
    pub fn do_instruction(&mut self, instruction: u16) -> (r: Result<(), Fault>)
        requires
            old(self).wf(),
        ensures
            final(self).wf(),
            exists|rnd: u8| #[trigger] executes_as(old(self)@, final(self)@, r, instruction, rnd),
    {
        let rnd = random_byte();
        self.execute(instruction, rnd)
    }

    /// Runs one fetch-decode-execute cycle.
    pub fn cycle(&mut self) -> (r: Result<Status, Fault>)
        requires
            old(self).wf(),
        ensures
            final(self).wf(),
            exists|rnd: u8| #[trigger] cycles_as(old(self)@, final(self)@, r, rnd),
    {
        let position = self.registers.pc as usize;
        if position % 2 != 0 || position + 2 > MEMORY_SIZE {
            assert(cycles_as(old(self)@, self@, Err(Fault::AddressingFault), 0));
            return Err(Fault::AddressingFault);
        }
        let op = self.memory[position] as u16 * 256 + self.memory[position + 1] as u16;
        self.registers.pc = self.registers.pc + 2;
        if op == 0 {
            assert(cycles_as(old(self)@, self@, Ok(Status::Halted), 0));
            return Ok(Status::Halted);
        }
        let rnd = random_byte();
        let r = match self.execute(op, rnd) {
            Ok(()) => Ok(Status::Running),
            Err(e) => Err(e),
        };
        assert(cycles_as(old(self)@, self@, r, rnd));
        r
    }

    /// Executes `op`, taking `rnd` as the random byte should `op` ask for one.
    #[verifier::rlimit(100)]
    #[verifier::spinoff_prover]
    pub fn execute(&mut self, op: u16, rnd: u8) -> (r: Result<(), Fault>)
        requires
            old(self).wf(),
        ensures
            final(self).wf(),
            executes_as(old(self)@, final(self)@, r, op, rnd),
    {
        let decoded = decode(op);
        let x = ((op & 0x0f00) >> 8) as usize;
        let y = ((op & 0x00f0) >> 4) as usize;
        proof {
            assert((op & 0x00ffu16) < 0x100u16) by (bit_vector);
        }
        let kk = (op & 0x00ff) as u8;
        let nnn = op & 0x0fff;
        proof {
            assert(((op & 0x0f00u16) >> 8u16) < 16u16) by (bit_vector);
            assert(((op & 0x00f0u16) >> 4u16) < 16u16) by (bit_vector);
            assert((op & 0x000fu16) < 16u16) by (bit_vector);
            assert((op & 0x0fffu16) < 0x1000u16) by (bit_vector);
        }
        let vx = self.registers.v[x];
        let vy = self.registers.v[y];
        match decoded {
            Instruction::Cls_00E0 => {
                self.display = Display::new();
                assert(self.display.buffer@ =~= Seq::new(2048, |p: int| false));
            },
            Instruction::Ret_00EE => {
                match self.stack.pop() {
                    Ok(adr) => self.registers.pc = adr,
                    Err(e) => return Err(e),
                }
            },
            Instruction::Jp_1nnn => {
                self.registers.pc = nnn;
            },
            Instruction::Call_2nnn => {
                match self.stack.push(self.registers.pc) {
                    Ok(()) => self.registers.pc = nnn,
                    Err(e) => return Err(e),
                }
            },
            Instruction::Se_3xkk => {
                self.skip_when(vx == kk);
            },
            Instruction::Sne_4xkk => {
                self.skip_when(vx != kk);
            },
            Instruction::Se_5xy0 => {
                self.skip_when(vx == vy);
            },
            Instruction::Ld_6xkk => {
                self.set_register(x, kk);
            },
            Instruction::Add_7xkk => {
                self.set_register(x, vx.wrapping_add(kk));
            },
            Instruction::Ld_8xy0 => {
                self.set_register(x, vy);
            },
            Instruction::Or_8xy1 => {
                self.set_register(x, vx | vy);
            },
            Instruction::And_8xy2 => {
                self.set_register(x, vx & vy);
            },
            Instruction::Xor_8xy3 => {
                self.set_register(x, vx ^ vy);
            },
            Instruction::Add_8xy4 => {
                let sum = vx as u16 + vy as u16;
                self.set_register_and_flag(x, vx.wrapping_add(vy), if sum > 255 { 1 } else { 0 });
            },
            Instruction::Sub_8xy5 => {
                self.set_register_and_flag(x, vx.wrapping_sub(vy), if vx > vy { 1 } else { 0 });
            },
            Instruction::Shr_8xy6 => {
                self.set_register_and_flag(x, vx >> 1, vx & 1);
            },
            Instruction::Subn_8xy7 => {
                self.set_register_and_flag(x, vy.wrapping_sub(vx), if vy > vx { 1 } else { 0 });
            },
            Instruction::Shl_8xyE => {
                self.set_register_and_flag(x, vx << 1, vx >> 7);
            },
            Instruction::Sne_9xy0 => {
                self.skip_when(vx != vy);
            },
            Instruction::Ld_Annn => {
                self.registers.i = nnn;
            },
            Instruction::Jp_Bnnn => {
                self.registers.pc = nnn + self.registers.v[0] as u16;
            },
            Instruction::Rnd_Cxkk => {
                self.set_register(x, rnd & kk);
            },
            Instruction::Drw_Dxyn => {
                let n = (op & 0x000f) as usize;
                let i = self.registers.i as usize;
                if i + n > MEMORY_SIZE {
                    return Err(Fault::AddressingFault);
                }
                let mut sprite: Vec<u8> = Vec::new();
                let mut k: usize = 0;
                while k < n
                    invariant
                        k <= n,
                        i + n <= MEMORY_SIZE,
                        sprite@ == self.memory@.subrange(i as int, i + k),
                    decreases n - k,
                {
                    sprite.push(self.memory[i + k]);
                    k = k + 1;
                    assert(sprite@ =~= self.memory@.subrange(i as int, i + k));
                }
                let collision = self.display.draw(vx, vy, (sprite.as_slice(), n));
                self.registers.v[15] = if collision { 1 } else { 0 };
                assert(self@.v =~= execute_spec(old(self)@, op, rnd)->Ok_0.v);
            },
            Instruction::Skp_Ex9E => {
                let held = vx < 16 && self.keys[vx as usize];
                self.skip_when(held);
            },
            Instruction::Sknp_ExA1 => {
                let held = vx < 16 && self.keys[vx as usize];
                self.skip_when(!held);
            },
            Instruction::Ld_Fx07 => {
                let dt = self.registers.dt;
                self.set_register(x, dt);
            },
            Instruction::Ld_Fx0A => {
                let mut key: u8 = 0;
                while key < 16 && !self.keys[key as usize]
                    invariant
                        key <= 16,
                        self.keys@.len() == 16,
                        lowest_held(self.keys@, 0) == lowest_held(self.keys@, key as int),
                    decreases 16 - key,
                {
                    key = key + 1;
                }
                if key < 16 {
                    self.set_register(x, key);
                } else {
                    self.registers.pc = self.registers.pc.wrapping_sub(2);
                }
            },
            Instruction::Ld_Fx15 => {
                self.registers.dt = vx;
            },
            Instruction::Ld_Fx18 => {
                self.registers.st = vx;
            },
            Instruction::Add_Fx1E => {
                self.registers.i = self.registers.i.wrapping_add(vx as u16);
            },
            Instruction::Ld_Fx29 => {
                self.registers.i = FONT_BASE + (vx % 16) as u16 * 5;
            },
            Instruction::Ld_Fx33 => {
                let i = self.registers.i as usize;
                if i + 3 > MEMORY_SIZE {
                    return Err(Fault::AddressingFault);
                }
                self.memory[i] = vx / 100;
                self.memory[i + 1] = (vx / 10) % 10;
                self.memory[i + 2] = vx % 10;
                assert(self@.memory =~= execute_spec(old(self)@, op, rnd)->Ok_0.memory);
            },
            Instruction::Ld_Fx55 => {
                let i = self.registers.i as usize;
                if i + x + 1 > MEMORY_SIZE {
                    return Err(Fault::AddressingFault);
                }
                let ghost before = self.memory@;
                let mut offset: usize = 0;
                while offset <= x
                    invariant
                        x < 16,
                        i + x + 1 <= MEMORY_SIZE,
                        offset <= x + 1,
                        self.registers == old(self).registers,
                        self.stack == old(self).stack,
                        self.display == old(self).display,
                        self.keys == old(self).keys,
                        self.memory@ =~= Seq::new(
                            MEMORY_SIZE as nat,
                            |a: int| if i <= a < i + offset { self.registers.v@[a - i] } else { before[a] },
                        ),
                    decreases x + 1 - offset,
                {
                    self.memory[i + offset] = self.registers.v[offset];
                    offset = offset + 1;
                }
                assert(self@.memory =~= execute_spec(old(self)@, op, rnd)->Ok_0.memory);
            },
            Instruction::Ld_Fx65 => {
                let i = self.registers.i as usize;
                if i + x + 1 > MEMORY_SIZE {
                    return Err(Fault::AddressingFault);
                }
                let ghost before = self.registers.v@;
                let mut offset: usize = 0;
                while offset <= x
                    invariant
                        x < 16,
                        i + x + 1 <= MEMORY_SIZE,
                        offset <= x + 1,
                        self.memory == old(self).memory,
                        self.registers.i == old(self).registers.i,
                        self.registers.dt == old(self).registers.dt,
                        self.registers.st == old(self).registers.st,
                        self.registers.pc == old(self).registers.pc,
                        self.stack == old(self).stack,
                        self.display == old(self).display,
                        self.keys == old(self).keys,
                        self.registers.v@ =~= Seq::new(
                            16,
                            |k: int| if k < offset { self.memory@[i + k] } else { before[k] },
                        ),
                    decreases x + 1 - offset,
                {
                    self.registers.v[offset] = self.memory[i + offset];
                    offset = offset + 1;
                }
                assert(self@.v =~= execute_spec(old(self)@, op, rnd)->Ok_0.v);
            },
            Instruction::Huh => {},
        }
        Ok(())
    }
}

} // verus!
