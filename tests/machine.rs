use chip8_core::{decode, Display, Fault, Instruction, Processor, Stack, Status};

fn machine() -> Processor {
    Processor::new()
}

fn run_to_halt(cpu: &mut Processor) -> Result<Status, Fault> {
    for _ in 0..1000 {
        match cpu.cycle() {
            Ok(Status::Running) => {}
            other => return other,
        }
    }
    panic!("program did not halt");
}

#[test]
fn decode_families() {
    assert_eq!(decode(0x00E0), Instruction::Cls_00E0);
    assert_eq!(decode(0x00EE), Instruction::Ret_00EE);
    assert_eq!(decode(0x1234), Instruction::Jp_1nnn);
    assert_eq!(decode(0x2234), Instruction::Call_2nnn);
    assert_eq!(decode(0x3A12), Instruction::Se_3xkk);
    assert_eq!(decode(0x4A12), Instruction::Sne_4xkk);
    assert_eq!(decode(0x5AB0), Instruction::Se_5xy0);
    assert_eq!(decode(0x6A12), Instruction::Ld_6xkk);
    assert_eq!(decode(0x7A12), Instruction::Add_7xkk);
    assert_eq!(decode(0x8AB0), Instruction::Ld_8xy0);
    assert_eq!(decode(0x8AB1), Instruction::Or_8xy1);
    assert_eq!(decode(0x8AB2), Instruction::And_8xy2);
    assert_eq!(decode(0x8AB3), Instruction::Xor_8xy3);
    assert_eq!(decode(0x8AB4), Instruction::Add_8xy4);
    assert_eq!(decode(0x8AB5), Instruction::Sub_8xy5);
    assert_eq!(decode(0x8AB6), Instruction::Shr_8xy6);
    assert_eq!(decode(0x8AB7), Instruction::Subn_8xy7);
    assert_eq!(decode(0x8ABE), Instruction::Shl_8xyE);
    assert_eq!(decode(0x9AB0), Instruction::Sne_9xy0);
    assert_eq!(decode(0xA123), Instruction::Ld_Annn);
    assert_eq!(decode(0xB123), Instruction::Jp_Bnnn);
    assert_eq!(decode(0xC1FF), Instruction::Rnd_Cxkk);
    assert_eq!(decode(0xD125), Instruction::Drw_Dxyn);
    assert_eq!(decode(0xE19E), Instruction::Skp_Ex9E);
    assert_eq!(decode(0xE1A1), Instruction::Sknp_ExA1);
    assert_eq!(decode(0xF107), Instruction::Ld_Fx07);
    assert_eq!(decode(0xF10A), Instruction::Ld_Fx0A);
    assert_eq!(decode(0xF115), Instruction::Ld_Fx15);
    assert_eq!(decode(0xF118), Instruction::Ld_Fx18);
    assert_eq!(decode(0xF11E), Instruction::Add_Fx1E);
    assert_eq!(decode(0xF129), Instruction::Ld_Fx29);
    assert_eq!(decode(0xF133), Instruction::Ld_Fx33);
    assert_eq!(decode(0xF155), Instruction::Ld_Fx55);
    assert_eq!(decode(0xF165), Instruction::Ld_Fx65);
}

#[test]
fn decode_unknown_subcodes() {
    assert_eq!(decode(0x0123), Instruction::Huh);
    assert_eq!(decode(0x8AB8), Instruction::Huh);
    assert_eq!(decode(0x8ABF), Instruction::Huh);
    assert_eq!(decode(0xE1FF), Instruction::Huh);
    assert_eq!(decode(0xF1FF), Instruction::Huh);
}

#[test]
fn decode_is_deterministic_everywhere() {
    let cpu = machine();
    for op in 0..=u16::MAX {
        assert_eq!(decode(op), decode(op));
        assert_eq!(cpu.parse_instruction(op), decode(op));
    }
}

#[test]
fn store_then_load_round_trip() {
    let mut cpu = machine();
    for k in 0..16u8 {
        cpu.registers.v[k as usize] = k * 7 + 3;
    }
    let original = cpu.registers.v;
    cpu.registers.i = 0x300;
    cpu.execute(0xF755, 0).unwrap();
    assert_eq!(&cpu.memory[0x300..0x308], &original[0..8]);
    assert_eq!(cpu.memory[0x308], 0);
    for k in 0..16 {
        cpu.registers.v[k] = 0xAA;
    }
    cpu.execute(0xF765, 0).unwrap();
    assert_eq!(&cpu.registers.v[0..8], &original[0..8]);
    assert_eq!(cpu.registers.v[8], 0xAA);
}

#[test]
fn store_out_of_memory_faults() {
    let mut cpu = machine();
    cpu.registers.i = 4090;
    assert_eq!(cpu.execute(0xFF55, 0), Err(Fault::AddressingFault));
    assert_eq!(cpu.execute(0xFF65, 0), Err(Fault::AddressingFault));
    cpu.registers.i = 4094;
    assert_eq!(cpu.execute(0xF033, 0), Err(Fault::AddressingFault));
}

#[test]
fn draw_twice_restores_screen() {
    let mut d = Display::new();
    let sprite = [0x7C, 0x40, 0x40, 0x7C, 0x40, 0x40, 0x7C];
    d.draw(1, 3, (&sprite, 7));
    let first = d.buffer;
    assert!(d.get_pixel(2, 3));
    assert!(!d.get_pixel(1, 3));
    let c1 = d.draw(3, 5, (&sprite, 7));
    let c2 = d.draw(3, 5, (&sprite, 7));
    assert!(c1);
    assert!(c2);
    assert_eq!(d.buffer, first);
}

#[test]
fn draw_wraps_columns() {
    let mut d = Display::new();
    let collision = d.draw(60, 0, (&[0xFF], 1));
    assert!(!collision);
    let lit: Vec<u8> = (0..64).filter(|&x| d.get_pixel(x, 0)).collect();
    assert_eq!(lit, vec![0, 1, 2, 3, 60, 61, 62, 63]);
}

#[test]
fn draw_wraps_rows() {
    let mut d = Display::new();
    d.draw(0, 30, (&[0x80, 0x80, 0x80, 0x80], 4));
    let lit: Vec<u8> = (0..32).filter(|&y| d.get_pixel(0, y)).collect();
    assert_eq!(lit, vec![0, 1, 30, 31]);
}

#[test]
fn draw_height_capped_at_fifteen() {
    let mut d = Display::new();
    let sprite = [0x80u8; 20];
    d.draw(0, 0, (&sprite, 20));
    let lit: Vec<u8> = (0..32).filter(|&y| d.get_pixel(0, y)).collect();
    assert_eq!(lit, (0..15).collect::<Vec<u8>>());
}

#[test]
fn draw_instruction_sets_collision_flag() {
    let mut cpu = machine();
    cpu.memory[0x300] = 0xF0;
    cpu.registers.i = 0x300;
    cpu.registers.v[1] = 10;
    cpu.registers.v[2] = 4;
    cpu.execute(0xD121, 0).unwrap();
    assert_eq!(cpu.registers.v[15], 0);
    assert!(cpu.display.get_pixel(10, 4));
    assert!(cpu.display.get_pixel(13, 4));
    assert!(!cpu.display.get_pixel(14, 4));
    cpu.execute(0xD121, 0).unwrap();
    assert_eq!(cpu.registers.v[15], 1);
    assert!(!cpu.display.get_pixel(10, 4));
    cpu.registers.i = 4095;
    assert_eq!(cpu.execute(0xD122, 0), Err(Fault::AddressingFault));
}

#[test]
fn clear_screen() {
    let mut cpu = machine();
    cpu.display.draw(0, 0, (&[0xFF], 1));
    cpu.execute(0x00E0, 0).unwrap();
    assert!(cpu.display.buffer.iter().all(|p| !p));
}

#[test]
fn sixteen_calls_then_overflow() {
    let mut cpu = machine();
    for k in 0..16u16 {
        assert_eq!(cpu.execute(0x2300 + 2 * k, 0), Ok(()));
    }
    assert_eq!(cpu.stack.sp, 16);
    assert_eq!(cpu.execute(0x2400, 0), Err(Fault::StackOverflow));
    assert_eq!(cpu.stack.sp, 16);
    assert_eq!(cpu.registers.pc, 0x31E);
}

#[test]
fn return_on_empty_stack_underflows() {
    let mut cpu = machine();
    assert_eq!(cpu.execute(0x00EE, 0), Err(Fault::StackUnderflow));
    assert_eq!(cpu.registers.pc, 0x200);
}

#[test]
fn call_then_return() {
    let mut cpu = machine();
    cpu.registers.pc = 0x204;
    cpu.execute(0x2ABC, 0).unwrap();
    assert_eq!(cpu.registers.pc, 0xABC);
    assert_eq!(cpu.stack.peek(), Some(0x204));
    cpu.execute(0x00EE, 0).unwrap();
    assert_eq!(cpu.registers.pc, 0x204);
    assert_eq!(cpu.stack.peek(), None);
}

#[test]
fn stack_push_pop_peek() {
    let mut s = Stack::new();
    assert_eq!(s.peek(), None);
    assert_eq!(s.pop(), Err(Fault::StackUnderflow));
    for k in 0..16u16 {
        assert_eq!(s.push(k), Ok(()));
    }
    assert_eq!(s.push(99), Err(Fault::StackOverflow));
    assert_eq!(s.peek(), Some(15));
    assert_eq!(s.pop(), Ok(15));
    assert_eq!(s.pop(), Ok(14));
    assert_eq!(s.sp, 14);
}

#[test]
fn add_with_carry() {
    let mut cpu = machine();
    cpu.registers.v[0] = 0xFF;
    cpu.registers.v[1] = 0x01;
    cpu.execute(0x8014, 0).unwrap();
    assert_eq!(cpu.registers.v[0], 0x00);
    assert_eq!(cpu.registers.v[15], 1);
    cpu.registers.v[0] = 0x01;
    cpu.registers.v[1] = 0x01;
    cpu.execute(0x8014, 0).unwrap();
    assert_eq!(cpu.registers.v[0], 0x02);
    assert_eq!(cpu.registers.v[15], 0);
}

#[test]
fn subtract_with_borrow() {
    let mut cpu = machine();
    cpu.registers.v[0] = 0x05;
    cpu.registers.v[1] = 0x03;
    cpu.execute(0x8015, 0).unwrap();
    assert_eq!(cpu.registers.v[0], 0x02);
    assert_eq!(cpu.registers.v[15], 1);
    cpu.registers.v[0] = 0x03;
    cpu.registers.v[1] = 0x05;
    cpu.execute(0x8015, 0).unwrap();
    assert_eq!(cpu.registers.v[0], 0xFE);
    assert_eq!(cpu.registers.v[15], 0);
}

#[test]
fn subtract_negated_and_shifts() {
    let mut cpu = machine();
    cpu.registers.v[2] = 0x03;
    cpu.registers.v[3] = 0x05;
    cpu.execute(0x8237, 0).unwrap();
    assert_eq!(cpu.registers.v[2], 0x02);
    assert_eq!(cpu.registers.v[15], 1);
    cpu.registers.v[4] = 0x81;
    cpu.execute(0x8406, 0).unwrap();
    assert_eq!(cpu.registers.v[4], 0x40);
    assert_eq!(cpu.registers.v[15], 1);
    cpu.registers.v[4] = 0x81;
    cpu.execute(0x840E, 0).unwrap();
    assert_eq!(cpu.registers.v[4], 0x02);
    assert_eq!(cpu.registers.v[15], 1);
    cpu.registers.v[4] = 0x40;
    cpu.execute(0x840E, 0).unwrap();
    assert_eq!(cpu.registers.v[4], 0x80);
    assert_eq!(cpu.registers.v[15], 0);
}

#[test]
fn flag_register_written_last() {
    let mut cpu = machine();
    cpu.registers.v[15] = 0xFF;
    cpu.registers.v[1] = 0x01;
    cpu.execute(0x8F14, 0).unwrap();
    assert_eq!(cpu.registers.v[15], 1);
}

#[test]
fn logic_and_immediates() {
    let mut cpu = machine();
    cpu.execute(0x6A0C, 0).unwrap();
    cpu.execute(0x6B0A, 0).unwrap();
    cpu.execute(0x8AB1, 0).unwrap();
    assert_eq!(cpu.registers.v[10], 0x0E);
    cpu.execute(0x8AB2, 0).unwrap();
    assert_eq!(cpu.registers.v[10], 0x0A);
    cpu.execute(0x8AB3, 0).unwrap();
    assert_eq!(cpu.registers.v[10], 0x00);
    cpu.execute(0x8AB0, 0).unwrap();
    assert_eq!(cpu.registers.v[10], 0x0A);
    cpu.registers.v[15] = 7;
    cpu.execute(0x7AFF, 0).unwrap();
    assert_eq!(cpu.registers.v[10], 0x09);
    assert_eq!(cpu.registers.v[15], 7);
}

#[test]
fn skips_compare_directly() {
    let mut cpu = machine();
    cpu.registers.pc = 0x202;
    cpu.registers.v[3] = 0x12;
    cpu.execute(0x3312, 0).unwrap();
    assert_eq!(cpu.registers.pc, 0x204);
    cpu.execute(0x3313, 0).unwrap();
    assert_eq!(cpu.registers.pc, 0x204);
    cpu.execute(0x4313, 0).unwrap();
    assert_eq!(cpu.registers.pc, 0x206);
    cpu.registers.v[4] = 0x12;
    cpu.execute(0x5340, 0).unwrap();
    assert_eq!(cpu.registers.pc, 0x208);
    cpu.execute(0x9340, 0).unwrap();
    assert_eq!(cpu.registers.pc, 0x208);
}

#[test]
fn key_skips_and_wait() {
    let mut cpu = machine();
    cpu.registers.pc = 0x202;
    cpu.registers.v[0] = 5;
    cpu.execute(0xE09E, 0).unwrap();
    assert_eq!(cpu.registers.pc, 0x202);
    cpu.execute(0xE0A1, 0).unwrap();
    assert_eq!(cpu.registers.pc, 0x204);
    cpu.keys[5] = true;
    cpu.execute(0xE09E, 0).unwrap();
    assert_eq!(cpu.registers.pc, 0x206);
    cpu.keys[5] = false;
    cpu.execute(0xF20A, 0).unwrap();
    assert_eq!(cpu.registers.pc, 0x204);
    cpu.keys[9] = true;
    cpu.keys[12] = true;
    cpu.execute(0xF20A, 0).unwrap();
    assert_eq!(cpu.registers.v[2], 9);
    assert_eq!(cpu.registers.pc, 0x204);
}

#[test]
fn timers_index_and_font() {
    let mut cpu = machine();
    cpu.registers.v[1] = 0x2A;
    cpu.execute(0xF115, 0).unwrap();
    cpu.execute(0xF118, 0).unwrap();
    assert_eq!(cpu.registers.dt, 0x2A);
    assert_eq!(cpu.registers.st, 0x2A);
    cpu.registers.dt = 7;
    cpu.execute(0xF207, 0).unwrap();
    assert_eq!(cpu.registers.v[2], 7);
    cpu.execute(0xAFFF, 0).unwrap();
    assert_eq!(cpu.registers.i, 0x0FFF);
    cpu.registers.i = 0xFFF0;
    cpu.execute(0xF11E, 0).unwrap();
    assert_eq!(cpu.registers.i, 0x001A);
    cpu.registers.v[3] = 0xA;
    cpu.execute(0xF329, 0).unwrap();
    assert_eq!(cpu.registers.i, 50);
    assert_eq!(&cpu.memory[50..55], &[0xF0, 0x90, 0xF0, 0x90, 0x90]);
}

#[test]
fn bcd_digits() {
    let mut cpu = machine();
    cpu.registers.v[4] = 254;
    cpu.registers.i = 0x400;
    cpu.execute(0xF433, 0).unwrap();
    assert_eq!(&cpu.memory[0x400..0x403], &[2, 5, 4]);
}

#[test]
fn jumps_and_random() {
    let mut cpu = machine();
    cpu.execute(0x1345, 0).unwrap();
    assert_eq!(cpu.registers.pc, 0x345);
    cpu.registers.v[0] = 0x10;
    cpu.execute(0xB300, 0).unwrap();
    assert_eq!(cpu.registers.pc, 0x310);
    cpu.execute(0xC50F, 0xAB).unwrap();
    assert_eq!(cpu.registers.v[5], 0x0B);
    cpu.do_instruction(0xC600).unwrap();
    assert_eq!(cpu.registers.v[6], 0);
}

#[test]
fn unknown_opcode_is_a_no_op() {
    let mut cpu = machine();
    cpu.registers.v[1] = 3;
    let before = cpu.registers.v;
    assert_eq!(cpu.execute(0x8128, 0), Ok(()));
    assert_eq!(cpu.registers.v, before);
    assert_eq!(cpu.registers.pc, 0x200);
}

#[test]
fn end_to_end_program() {
    let mut cpu = machine();
    cpu.load_rom(vec![0x60, 0x05, 0x61, 0x03, 0x80, 0x14, 0x00, 0x00]).unwrap();
    assert_eq!(run_to_halt(&mut cpu), Ok(Status::Halted));
    assert_eq!(cpu.registers.v[0], 0x08);
    assert_eq!(cpu.registers.v[15], 0);
    assert_eq!(cpu.registers.pc, 0x208);
}

#[test]
fn load_rom_bounds() {
    let mut cpu = machine();
    assert_eq!(cpu.load_rom(vec![1; 3585]), Err(Fault::ProgramTooLarge));
    assert_eq!(cpu.memory[0x200], 0);
    assert_eq!(cpu.load_rom(vec![1; 3584]), Ok(()));
    assert_eq!(cpu.memory[0x200], 1);
    assert_eq!(cpu.memory[4095], 1);
    assert_eq!(cpu.memory[0x1FF], 0);
}

#[test]
fn cycle_faults_leave_state() {
    let mut cpu = machine();
    cpu.registers.pc = 0x201;
    assert_eq!(cpu.cycle(), Err(Fault::AddressingFault));
    cpu.registers.pc = 4094;
    cpu.memory[4094] = 0x00;
    cpu.memory[4095] = 0xEE;
    assert_eq!(cpu.cycle(), Err(Fault::StackUnderflow));
    assert_eq!(cpu.registers.pc, 4096);
    assert_eq!(cpu.cycle(), Err(Fault::AddressingFault));
}

#[test]
fn fresh_machine() {
    let cpu = machine();
    assert_eq!(cpu.registers.pc, 0x200);
    assert_eq!(cpu.registers.i, 0);
    assert_eq!(cpu.registers.v, [0; 16]);
    assert_eq!(&cpu.memory[0..5], &[0xF0, 0x90, 0x90, 0x90, 0xF0]);
    assert_eq!(cpu.memory[80], 0);
    assert_eq!(cpu.stack.sp, 0);
}
