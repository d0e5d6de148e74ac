use chip8emu::key::Key;
use chip8emu::machine::{Machine, MachineErr};
use chip8emu::reg::Reg;

fn mach(prog: &[u8]) -> Machine {
    let mut m = Machine::new();
    m.load(prog).unwrap();
    m
}

#[test]
fn fresh_machine_starts_at_load_offset() {
    let m = Machine::new();
    assert_eq!(m.get_pc(), 0x200);
    assert_eq!(m.get_index(), 0);
    assert_eq!(m.get_reg(Reg::V0), 0);
    assert_eq!(m.get_delay_timer(), 0);
    assert_eq!(m.get_sound_timer(), 0);
}

#[test]
fn load_past_memory_end_is_error() {
    let mut m = Machine::new();
    let big = vec![0u8; 4096 - 0x200 + 1];
    assert!(matches!(m.load(&big), Err(MachineErr::Memory(_))));
    let exact = vec![0u8; 4096 - 0x200];
    assert!(m.load(&exact).is_ok());
}

#[test]
fn set_val_add_reg_scenario() {
    // SetVal V0=10; SetVal V1=5; AddReg V0+=V1
    let mut m = mach(&[0x60, 0x0A, 0x61, 0x05, 0x80, 0x14]);
    m.step(0).unwrap();
    m.step(0).unwrap();
    m.step(0).unwrap();
    assert_eq!(m.get_reg(Reg::V0), 15);
    assert_eq!(m.get_reg(Reg::VF), 0);
    assert_eq!(m.get_pc(), 0x206);
}

#[test]
fn add_reg_wraps_and_sets_carry() {
    // V0=0xFF, V1=0x02, AddReg: wraps to 0x01 with carry flag set
    let mut m = mach(&[0x60, 0xFF, 0x61, 0x02, 0x80, 0x14]);
    for _ in 0..3 {
        m.step(0).unwrap();
    }
    assert_eq!(m.get_reg(Reg::V0), 0x01);
    assert_eq!(m.get_reg(Reg::VF), 1);
}

#[test]
fn sub_reg_borrow_clears_flag() {
    // V0=5, V1=10, SubReg: wraps to 251, flag 0 (borrow occurred)
    let mut m = mach(&[0x60, 0x05, 0x61, 0x0A, 0x80, 0x15]);
    for _ in 0..3 {
        m.step(0).unwrap();
    }
    assert_eq!(m.get_reg(Reg::V0), 0xFB);
    assert_eq!(m.get_reg(Reg::VF), 0);
}

#[test]
fn sub_reg_no_borrow_sets_flag() {
    // V0=10, V1=5, SubReg: 5, flag 1 (no borrow)
    let mut m = mach(&[0x60, 0x0A, 0x61, 0x05, 0x80, 0x15]);
    for _ in 0..3 {
        m.step(0).unwrap();
    }
    assert_eq!(m.get_reg(Reg::V0), 5);
    assert_eq!(m.get_reg(Reg::VF), 1);
}

#[test]
fn sub_reg_rev_subtracts_other_way() {
    // V0=5, V1=10, SubRegRev: V0 = V1 - V0 = 5, flag 1
    let mut m = mach(&[0x60, 0x05, 0x61, 0x0A, 0x80, 0x17]);
    for _ in 0..3 {
        m.step(0).unwrap();
    }
    assert_eq!(m.get_reg(Reg::V0), 5);
    assert_eq!(m.get_reg(Reg::VF), 1);
}

#[test]
fn shift_right_moves_low_bit_to_flag() {
    // V1=0b00000011, ShiftRight V0 <- V1: result 0b1, flag 1
    let mut m = mach(&[0x61, 0x03, 0x80, 0x16]);
    m.step(0).unwrap();
    m.step(0).unwrap();
    assert_eq!(m.get_reg(Reg::V0), 0b0000_0001);
    assert_eq!(m.get_reg(Reg::VF), 1);
}

#[test]
fn shift_left_moves_high_bit_to_flag() {
    // V1=0b10000001, ShiftLeft V0 <- V1: result 0b10, flag 1
    let mut m = mach(&[0x61, 0x81, 0x80, 0x1E]);
    m.step(0).unwrap();
    m.step(0).unwrap();
    assert_eq!(m.get_reg(Reg::V0), 0b0000_0010);
    assert_eq!(m.get_reg(Reg::VF), 1);
}

#[test]
fn bitwise_ops() {
    // V0=0b1100, V1=0b1010: OR, then reload and AND, then reload and XOR
    let mut m = mach(&[0x60, 0x0C, 0x61, 0x0A, 0x80, 0x11]);
    for _ in 0..3 {
        m.step(0).unwrap();
    }
    assert_eq!(m.get_reg(Reg::V0), 0b1110);

    let mut m = mach(&[0x60, 0x0C, 0x61, 0x0A, 0x80, 0x12]);
    for _ in 0..3 {
        m.step(0).unwrap();
    }
    assert_eq!(m.get_reg(Reg::V0), 0b1000);

    let mut m = mach(&[0x60, 0x0C, 0x61, 0x0A, 0x80, 0x13]);
    for _ in 0..3 {
        m.step(0).unwrap();
    }
    assert_eq!(m.get_reg(Reg::V0), 0b0110);
}

#[test]
fn conditional_skips() {
    // V0=0x0A, SkipIfRegVal 0x0A: skips the next instruction
    let mut m = mach(&[0x60, 0x0A, 0x30, 0x0A, 0x61, 0x01, 0x62, 0x02]);
    for _ in 0..3 {
        m.step(0).unwrap();
    }
    assert_eq!(m.get_reg(Reg::V1), 0);
    assert_eq!(m.get_reg(Reg::V2), 2);
    assert_eq!(m.get_pc(), 0x208);
}

#[test]
fn jump_and_call_and_return() {
    // 0x200: Call 0x206; 0x206: Return; 0x202: SetVal V0=0xAA
    let mut m = mach(&[0x22, 0x06, 0x60, 0xAA, 0x00, 0x00, 0x00, 0xEE]);
    m.step(0).unwrap();
    assert_eq!(m.get_pc(), 0x206);
    m.step(0).unwrap();
    assert_eq!(m.get_pc(), 0x202);
    m.step(0).unwrap();
    assert_eq!(m.get_reg(Reg::V0), 0xAA);
}

#[test]
fn jump_with_offset_adds_v0() {
    let mut m = mach(&[0x60, 0x04, 0xB2, 0x10]);
    m.step(0).unwrap();
    m.step(0).unwrap();
    assert_eq!(m.get_pc(), 0x214);
}

#[test]
fn return_on_empty_stack_is_error() {
    let mut m = mach(&[0x00, 0xEE]);
    assert!(matches!(m.step(0), Err(MachineErr::StackUnderflow(_))));
}

#[test]
fn unknown_opcode_is_decode_error() {
    let mut m = mach(&[0x01, 0x23]);
    assert!(matches!(m.step(0), Err(MachineErr::Decode(_))));
    // the program counter has still advanced past the bad word
    assert_eq!(m.get_pc(), 0x202);
}

#[test]
fn fetch_past_memory_end_is_error() {
    // Jump to 0xFFF, where no full word fits
    let mut m = mach(&[0x1F, 0xFF]);
    m.step(0).unwrap();
    assert_eq!(m.get_pc(), 0xFFF);
    assert!(matches!(m.step(0), Err(MachineErr::Memory(_))));
    assert_eq!(m.get_pc(), 0xFFF);
}

#[test]
fn random_masks_injected_byte() {
    let mut m = mach(&[0xC0, 0x0F]);
    m.step(0xAB).unwrap();
    assert_eq!(m.get_reg(Reg::V0), 0x0B);

    let mut m = mach(&[0xC0, 0xFF]);
    m.step(0xAB).unwrap();
    assert_eq!(m.get_reg(Reg::V0), 0xAB);
}

#[test]
fn key_wait_rolls_back_until_key_pressed() {
    let mut m = mach(&[0xF0, 0x0A]);
    m.step(0).unwrap();
    assert_eq!(m.get_pc(), 0x200);
    assert_eq!(m.get_reg(Reg::V0), 0);
    m.step(0).unwrap();
    assert_eq!(m.get_pc(), 0x200);
    m.set_key(Key::Key7, true);
    m.step(0).unwrap();
    assert_eq!(m.get_pc(), 0x202);
    assert_eq!(m.get_reg(Reg::V0), 7);
}

#[test]
fn key_wait_takes_lowest_pressed_key() {
    let mut m = mach(&[0xF0, 0x0A]);
    m.set_key(Key::KeyC, true);
    m.set_key(Key::Key2, true);
    m.step(0).unwrap();
    assert_eq!(m.get_reg(Reg::V0), 2);
}

#[test]
fn skip_if_key_follows_keypad() {
    // V0=5; SkipIfKey V0; SetVal V1=1; SetVal V2=2
    let prog = [0x60, 0x05, 0xE0, 0x9E, 0x61, 0x01, 0x62, 0x02];
    let mut m = mach(&prog);
    m.step(0).unwrap();
    m.step(0).unwrap();
    // key 5 not pressed: no skip
    assert_eq!(m.get_pc(), 0x204);

    let mut m = mach(&prog);
    m.set_key(Key::Key5, true);
    m.step(0).unwrap();
    m.step(0).unwrap();
    assert_eq!(m.get_pc(), 0x206);
}

#[test]
fn timers_set_read_and_tick() {
    // V0=0x3C; delay=V0; sound=V0; V1=delay
    let mut m = mach(&[0x60, 0x3C, 0xF0, 0x15, 0xF0, 0x18, 0xF1, 0x07]);
    for _ in 0..4 {
        m.step(0).unwrap();
    }
    assert_eq!(m.get_delay_timer(), 0x3C);
    assert_eq!(m.get_sound_timer(), 0x3C);
    assert_eq!(m.get_reg(Reg::V1), 0x3C);
    m.tick_timers();
    assert_eq!(m.get_delay_timer(), 0x3B);
    assert_eq!(m.get_sound_timer(), 0x3B);
}

#[test]
fn add_index_masks_to_twelve_bits_and_flags() {
    // I=0xFFF; V0=2; AddIndex V0: exceeds twelve bits
    let mut m = mach(&[0xAF, 0xFF, 0x60, 0x02, 0xF0, 0x1E]);
    for _ in 0..3 {
        m.step(0).unwrap();
    }
    assert_eq!(m.get_index(), 0x001);
    assert_eq!(m.get_reg(Reg::VF), 1);
}

#[test]
fn add_index_without_overflow_leaves_flag() {
    let mut m = mach(&[0xA1, 0x00, 0x60, 0x02, 0xF0, 0x1E]);
    for _ in 0..3 {
        m.step(0).unwrap();
    }
    assert_eq!(m.get_index(), 0x102);
    assert_eq!(m.get_reg(Reg::VF), 0);
}

#[test]
fn font_points_index_at_register_value() {
    let mut m = mach(&[0x60, 0x0A, 0xF0, 0x29]);
    m.step(0).unwrap();
    m.step(0).unwrap();
    assert_eq!(m.get_index(), 10);
}

#[test]
fn bcd_stores_three_decimal_digits() {
    // V0=234; I=0x300; BCDConv; then load V0..=V2 from I
    let mut m = mach(&[0x60, 0xEA, 0xA3, 0x00, 0xF0, 0x33, 0xF2, 0x65]);
    for _ in 0..4 {
        m.step(0).unwrap();
    }
    assert_eq!(m.get_reg(Reg::V0), 2);
    assert_eq!(m.get_reg(Reg::V1), 3);
    assert_eq!(m.get_reg(Reg::V2), 4);
}

#[test]
fn store_and_load_register_block() {
    // V0=1, V1=2, V2=3; I=0x300; store V0..=V2; clear regs; load back
    let mut m = mach(&[
        0x60, 0x01, 0x61, 0x02, 0x62, 0x03, 0xA3, 0x00, 0xF2, 0x55, 0x60, 0x00, 0x61, 0x00, 0x62,
        0x00, 0xF2, 0x65,
    ]);
    for _ in 0..9 {
        m.step(0).unwrap();
    }
    assert_eq!(m.get_reg(Reg::V0), 1);
    assert_eq!(m.get_reg(Reg::V1), 2);
    assert_eq!(m.get_reg(Reg::V2), 3);
    // the index register itself is unchanged by the plain variants
    assert_eq!(m.get_index(), 0x300);
}

#[test]
fn draw_scenario_writes_sprite_to_screen() {
    // I=0x20C; Display at (V0=0, V1=0) with 5 sprite rows stored at 0x20C
    let sprite = [0xF0u8, 0x90, 0x90, 0x90, 0xF0];
    let mut prog = vec![0xA2, 0x0C, 0xD0, 0x15];
    prog.extend_from_slice(&[0; 8]);
    prog.extend_from_slice(&sprite);
    let mut m = mach(&prog);
    m.step(0).unwrap();
    m.step(0).unwrap();
    for (row, byte) in sprite.iter().enumerate() {
        for bit in 0..8usize {
            let expected = byte & (0x80 >> bit) != 0;
            assert_eq!(m.get_pixel(bit, row), Ok(expected));
        }
    }
    assert_eq!(m.get_reg(Reg::VF), 0);
}

#[test]
fn draw_same_sprite_twice_reports_collision() {
    let sprite = [0xF0u8, 0x90, 0x90, 0x90, 0xF0];
    let mut prog = vec![0xA2, 0x0E, 0xD0, 0x15, 0xD0, 0x15];
    prog.extend_from_slice(&[0; 8]);
    prog.extend_from_slice(&sprite);
    let mut m = mach(&prog);
    m.step(0).unwrap();
    m.step(0).unwrap();
    assert_eq!(m.get_reg(Reg::VF), 0);
    m.step(0).unwrap();
    assert_eq!(m.get_reg(Reg::VF), 1);
    for y in 0..32 {
        for x in 0..64 {
            assert_eq!(m.get_pixel(x, y), Ok(false));
        }
    }
}

#[test]
fn draw_sprite_outside_memory_is_error() {
    // I=0xFFF, draw 5 rows: sprite bytes reach past memory
    let mut m = mach(&[0xAF, 0xFF, 0xD0, 0x15]);
    m.step(0).unwrap();
    assert!(matches!(m.step(0), Err(MachineErr::Memory(_))));
}

#[test]
fn clear_screen_instruction() {
    let sprite = [0xFFu8];
    let mut prog = vec![0xA2, 0x0C, 0xD0, 0x11, 0x00, 0xE0];
    prog.extend_from_slice(&[0; 6]);
    prog.extend_from_slice(&sprite);
    let mut m = mach(&prog);
    m.step(0).unwrap();
    m.step(0).unwrap();
    assert_eq!(m.get_pixel(0, 0), Ok(true));
    m.step(0).unwrap();
    for x in 0..8 {
        assert_eq!(m.get_pixel(x, 0), Ok(false));
    }
}

#[test]
fn set_reg_copies_value() {
    let mut m = mach(&[0x61, 0x2A, 0x80, 0x10]);
    m.step(0).unwrap();
    m.step(0).unwrap();
    assert_eq!(m.get_reg(Reg::V0), 0x2A);
}
