use vstd::prelude::*;

verus! {

/// The operation an opcode names. Operands are read from the opcode itself.
#[allow(non_camel_case_types)]
#[derive(Debug, Clone, Copy, PartialEq, Eq, Structural)]
pub enum Instruction {
    Cls_00E0,
    Ret_00EE,
    Jp_1nnn,
    Call_2nnn,
    Se_3xkk,
    Sne_4xkk,
    Se_5xy0,
    Ld_6xkk,
    Add_7xkk,
    Ld_8xy0,
    Or_8xy1,
    And_8xy2,
    Xor_8xy3,
    Add_8xy4,
    Sub_8xy5,
    Shr_8xy6,
    Subn_8xy7,
    Shl_8xyE,
    Sne_9xy0,
    Ld_Annn,
    Jp_Bnnn,
    Rnd_Cxkk,
    Drw_Dxyn,
    Skp_Ex9E,
    Sknp_ExA1,
    Ld_Fx07,
    Ld_Fx0A,
    Ld_Fx15,
    Ld_Fx18,
    Add_Fx1E,
    Ld_Fx29,
    Ld_Fx33,
    Ld_Fx55,
    Ld_Fx65,
    /// No defined operation: executes as a no-op.
    Huh,
}

/// Register index in bits 8-11.
pub open spec fn op_x(op: u16) -> int {
    ((op & 0x0f00u16) >> 8u16) as int
}

/// Register index in bits 4-7.
pub open spec fn op_y(op: u16) -> int {
    ((op & 0x00f0u16) >> 4u16) as int
}

/// Nibble in bits 0-3.
pub open spec fn op_n(op: u16) -> int {
    (op & 0x000fu16) as int
}

/// Byte in bits 0-7.
pub open spec fn op_kk(op: u16) -> u8 {
    (op & 0x00ffu16) as u8
}

/// Address in bits 0-11.
pub open spec fn op_nnn(op: u16) -> u16 {
    op & 0x0fffu16
}

/// The instruction that `op` encodes: first by its top nibble, then, for the families
/// that share a top nibble, by its low nibble or low byte.
pub open spec fn decode_spec(op: u16) -> Instruction {
    let family = op >> 12u16;
    let low_nibble = op & 0x000fu16;
    let low_byte = op & 0x00ffu16;
    if family == 0x0 {
        if op == 0x00E0 {
            Instruction::Cls_00E0
        } else if op == 0x00EE {
            Instruction::Ret_00EE
        } else {
            Instruction::Huh
        }
    } else if family == 0x1 {
        Instruction::Jp_1nnn
    } else if family == 0x2 {
        Instruction::Call_2nnn
    } else if family == 0x3 {
        Instruction::Se_3xkk
    } else if family == 0x4 {
        Instruction::Sne_4xkk
    } else if family == 0x5 {
        Instruction::Se_5xy0
    } else if family == 0x6 {
        Instruction::Ld_6xkk
    } else if family == 0x7 {
        Instruction::Add_7xkk
    } else if family == 0x8 {
        if low_nibble == 0x0 {
            Instruction::Ld_8xy0
        } else if low_nibble == 0x1 {
            Instruction::Or_8xy1
        } else if low_nibble == 0x2 {
            Instruction::And_8xy2
        } else if low_nibble == 0x3 {
            Instruction::Xor_8xy3
        } else if low_nibble == 0x4 {
            Instruction::Add_8xy4
        } else if low_nibble == 0x5 {
            Instruction::Sub_8xy5
        } else if low_nibble == 0x6 {
            Instruction::Shr_8xy6
        } else if low_nibble == 0x7 {
            Instruction::Subn_8xy7
        } else if low_nibble == 0xE {
            Instruction::Shl_8xyE
        } else {
            Instruction::Huh
        }
    } else if family == 0x9 {
        Instruction::Sne_9xy0
    } else if family == 0xA {
        Instruction::Ld_Annn
    } else if family == 0xB {
        Instruction::Jp_Bnnn
    } else if family == 0xC {
        Instruction::Rnd_Cxkk
    } else if family == 0xD {
        Instruction::Drw_Dxyn
    } else if family == 0xE {
        if low_nibble == 0xE {
            Instruction::Skp_Ex9E
        } else if low_nibble == 0x1 {
            Instruction::Sknp_ExA1
        } else {
            Instruction::Huh
        }
    } else {
        if low_byte == 0x07 {
            Instruction::Ld_Fx07
        } else if low_byte == 0x0A {
            Instruction::Ld_Fx0A
        } else if low_byte == 0x15 {
            Instruction::Ld_Fx15
        } else if low_byte == 0x18 {
            Instruction::Ld_Fx18
        } else if low_byte == 0x1E {
            Instruction::Add_Fx1E
        } else if low_byte == 0x29 {
            Instruction::Ld_Fx29
        } else if low_byte == 0x33 {
            Instruction::Ld_Fx33
        } else if low_byte == 0x55 {
            Instruction::Ld_Fx55
        } else if low_byte == 0x65 {
            Instruction::Ld_Fx65
        } else {
            Instruction::Huh
        }
    }
}

/// Decodes an opcode. Total: every opcode yields exactly one instruction.
pub fn decode(op: u16) -> (r: Instruction)
    ensures
        r == decode_spec(op),
{
    let low_nibble = op & 0x000f;
    match op >> 12 {
        0x0 => match op {
            0x00E0 => Instruction::Cls_00E0,
            0x00EE => Instruction::Ret_00EE,
            _ => Instruction::Huh,
        },
        0x1 => Instruction::Jp_1nnn,
        0x2 => Instruction::Call_2nnn,
        0x3 => Instruction::Se_3xkk,
        0x4 => Instruction::Sne_4xkk,
        0x5 => Instruction::Se_5xy0,
        0x6 => Instruction::Ld_6xkk,
        0x7 => Instruction::Add_7xkk,
        0x8 => match low_nibble {
            0x0 => Instruction::Ld_8xy0,
            0x1 => Instruction::Or_8xy1,
            0x2 => Instruction::And_8xy2,
            0x3 => Instruction::Xor_8xy3,
            0x4 => Instruction::Add_8xy4,
            0x5 => Instruction::Sub_8xy5,
            0x6 => Instruction::Shr_8xy6,
            0x7 => Instruction::Subn_8xy7,
            0xE => Instruction::Shl_8xyE,
            _ => Instruction::Huh,
        },
        0x9 => Instruction::Sne_9xy0,
        0xA => Instruction::Ld_Annn,
        0xB => Instruction::Jp_Bnnn,
        0xC => Instruction::Rnd_Cxkk,
        0xD => Instruction::Drw_Dxyn,
        0xE => match low_nibble {
            0xE => Instruction::Skp_Ex9E,
            0x1 => Instruction::Sknp_ExA1,
            _ => Instruction::Huh,
        },
        _ => match op & 0x00ff {
            0x07 => Instruction::Ld_Fx07,
            0x0A => Instruction::Ld_Fx0A,
            0x15 => Instruction::Ld_Fx15,
            0x18 => Instruction::Ld_Fx18,
            0x1E => Instruction::Add_Fx1E,
            0x29 => Instruction::Ld_Fx29,
            0x33 => Instruction::Ld_Fx33,
            0x55 => Instruction::Ld_Fx55,
            0x65 => Instruction::Ld_Fx65,
            _ => Instruction::Huh,
        },
    }
}

/// Decoding is a function of the opcode alone: two decodings of one opcode agree.
pub proof fn decode_is_deterministic(op: u16, first: Instruction, second: Instruction)
    requires
        first == decode_spec(op),
        second == decode_spec(op),
    ensures
        first == second,
{
}

} // verus!
