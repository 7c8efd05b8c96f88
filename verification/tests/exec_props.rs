use chip8::chip8::Chip8;
use chip8::config::ChipCfg;
use chip8::instruction::ChipInst;

fn fresh() -> Chip8 {
    Chip8::new(ChipCfg::default())
}

fn legacy_save() -> Chip8 {
    Chip8::new(ChipCfg {
        font_start: 0x050,
        jump_offset_legacy: false,
        register_save_legacy: true,
        index_add_carry: false,
    })
}

#[test]
fn add_imm_wraps_without_flag_exhaustive() {
    let mut chip = fresh();
    for x in 0..=255u16 {
        for nn in [0u16, 1, 7, 0x7F, 0x80, 0xFE, 0xFF] {
            chip.v[1] = x as u8;
            chip.v[15] = 0xAB;
            let inst = ChipInst::new(0x7100 | nn);
            chip.execute(&inst, None).unwrap();
            assert_eq!(chip.v[1], ((x + nn) % 256) as u8);
            assert_eq!(chip.v[15], 0xAB);
        }
    }
}

#[test]
fn add_regs_carry_flag_exhaustive() {
    let mut chip = fresh();
    for x in 0..=255u16 {
        for y in [0u16, 1, 5, 55, 127, 128, 200, 255] {
            chip.v[1] = x as u8;
            chip.v[2] = y as u8;
            chip.execute(&ChipInst::new(0x8124), None).unwrap();
            assert_eq!(chip.v[1], ((x + y) % 256) as u8);
            assert_eq!(chip.v[15], if x + y > 255 { 1 } else { 0 });
        }
    }
}

#[test]
fn add_regs_carry_flag_aliased() {
    // x == y: the sum uses the same value twice.
    let mut chip = fresh();
    for x in 0..=255u16 {
        chip.v[3] = x as u8;
        chip.execute(&ChipInst::new(0x8334), None).unwrap();
        assert_eq!(chip.v[3], ((x + x) % 256) as u8);
        assert_eq!(chip.v[15], if x + x > 255 { 1 } else { 0 });
    }
    // x == 0xF: the flag write lands last, whatever the sum was.
    chip.v[15] = 200;
    chip.v[2] = 100;
    chip.execute(&ChipInst::new(0x8F24), None).unwrap();
    assert_eq!(chip.v[15], 1);
}

#[test]
fn sub_regs_borrow_flag_exhaustive() {
    let mut chip = fresh();
    for x in 0..=255i32 {
        for y in [0i32, 1, 5, 55, 127, 128, 200, 255] {
            chip.v[1] = x as u8;
            chip.v[2] = y as u8;
            chip.execute(&ChipInst::new(0x8125), None).unwrap();
            assert_eq!(chip.v[1], ((x - y).rem_euclid(256)) as u8);
            assert_eq!(chip.v[15], if y > x { 0 } else { 1 });
        }
    }
}

#[test]
fn sub_regs_reversed_borrow_flag() {
    let mut chip = fresh();
    for (x, y) in [(10i32, 20i32), (20, 10), (0, 0), (255, 1), (1, 255)] {
        chip.v[1] = x as u8;
        chip.v[2] = y as u8;
        chip.execute(&ChipInst::new(0x8127), None).unwrap();
        assert_eq!(chip.v[1], ((y - x).rem_euclid(256)) as u8);
        assert_eq!(chip.v[15], if x > y { 0 } else { 1 });
    }
}

#[test]
fn shift_right_source_low_bit_exhaustive() {
    // The shifts read the source register Vy; VF gets Vy's low bit.
    let mut chip = fresh();
    for vy in 0..=255u8 {
        chip.v[2] = vy;
        chip.execute(&ChipInst::new(0x8126), None).unwrap();
        assert_eq!(chip.v[1], vy >> 1);
        assert_eq!(chip.v[15], vy & 1);
        assert_eq!(chip.v[2], vy);
    }
}

#[test]
fn shift_left_source_high_bit_exhaustive() {
    let mut chip = fresh();
    for vy in 0..=255u8 {
        chip.v[2] = vy;
        chip.execute(&ChipInst::new(0x812E), None).unwrap();
        assert_eq!(chip.v[1], vy << 1);
        assert_eq!(chip.v[15], vy >> 7);
    }
}

#[test]
fn logic_ops_and_moves() {
    let mut chip = fresh();
    chip.v[1] = 0b1100;
    chip.v[2] = 0b1010;
    chip.execute(&ChipInst::new(0x8121), None).unwrap();
    assert_eq!(chip.v[1], 0b1110);
    chip.v[1] = 0b1100;
    chip.execute(&ChipInst::new(0x8122), None).unwrap();
    assert_eq!(chip.v[1], 0b1000);
    chip.v[1] = 0b1100;
    chip.execute(&ChipInst::new(0x8123), None).unwrap();
    assert_eq!(chip.v[1], 0b0110);
    chip.execute(&ChipInst::new(0x8120), None).unwrap();
    assert_eq!(chip.v[1], 0b1010);
    chip.execute(&ChipInst::new(0x6355), None).unwrap();
    assert_eq!(chip.v[3], 0x55);
}

#[test]
fn skips_move_pc_by_two() {
    let mut chip = fresh();
    chip.pc = 0x300;
    chip.v[1] = 7;
    chip.execute(&ChipInst::new(0x3107), None).unwrap();
    assert_eq!(chip.pc, 0x302);
    chip.execute(&ChipInst::new(0x3108), None).unwrap();
    assert_eq!(chip.pc, 0x302);
    chip.execute(&ChipInst::new(0x4108), None).unwrap();
    assert_eq!(chip.pc, 0x304);
    chip.v[2] = 7;
    chip.execute(&ChipInst::new(0x5120), None).unwrap();
    assert_eq!(chip.pc, 0x306);
    chip.execute(&ChipInst::new(0x9120), None).unwrap();
    assert_eq!(chip.pc, 0x306);
    chip.v[2] = 8;
    chip.execute(&ChipInst::new(0x9120), None).unwrap();
    assert_eq!(chip.pc, 0x308);
}

#[test]
fn jump_and_call_and_return() {
    let mut chip = fresh();
    chip.execute(&ChipInst::new(0x1ABC), None).unwrap();
    assert_eq!(chip.pc, 0xABC);
    chip.execute(&ChipInst::new(0x2DEF), None).unwrap();
    assert_eq!(chip.pc, 0xDEF);
    assert_eq!(chip.sp, 1);
    assert_eq!(chip.stack[0], 0xABC);
    chip.execute(&ChipInst::new(0x00EE), None).unwrap();
    assert_eq!(chip.pc, 0xABC);
    assert_eq!(chip.sp, 0);
}

#[test]
fn jump_offset_modern_uses_top_nibble_register() {
    let mut chip = fresh();
    chip.v[2] = 0x10;
    chip.execute(&ChipInst::new(0xB234), None).unwrap();
    assert_eq!(chip.pc, 0x234 + 0x10);
}

#[test]
fn jump_offset_legacy_uses_v0() {
    let mut chip = Chip8::new(ChipCfg {
        font_start: 0x050,
        jump_offset_legacy: true,
        register_save_legacy: false,
        index_add_carry: false,
    });
    chip.v[0] = 0x20;
    chip.v[2] = 0x10;
    chip.execute(&ChipInst::new(0xB234), None).unwrap();
    assert_eq!(chip.pc, 0x234 + 0x20);
}

#[test]
fn random_byte_is_masked() {
    let mut chip = fresh();
    for _ in 0..32 {
        chip.execute(&ChipInst::new(0xC10F), None).unwrap();
        assert_eq!(chip.v[1] & 0xF0, 0);
    }
    chip.v[1] = 0xAA;
    chip.execute(&ChipInst::new(0xC100), None).unwrap();
    assert_eq!(chip.v[1], 0);
}

#[test]
fn font_address_for_every_digit() {
    let mut chip = fresh();
    for d in 0..=15u8 {
        chip.v[4] = d;
        chip.execute(&ChipInst::new(0xF429), None).unwrap();
        assert_eq!(chip.i, 0x050 + 5 * d as u16);
    }
}

#[test]
fn bcd_digits_exhaustive() {
    let mut chip = fresh();
    chip.i = 0x300;
    for b in 0..=255u16 {
        chip.v[6] = b as u8;
        chip.execute(&ChipInst::new(0xF633), None).unwrap();
        assert_eq!(chip.mem[0x300], (b / 100) as u8);
        assert_eq!(chip.mem[0x301], ((b / 10) % 10) as u8);
        assert_eq!(chip.mem[0x302], (b % 10) as u8);
    }
    chip.v[6] = 255;
    chip.execute(&ChipInst::new(0xF633), None).unwrap();
    assert_eq!((chip.mem[0x300], chip.mem[0x301], chip.mem[0x302]), (2, 5, 5));
    chip.v[6] = 7;
    chip.execute(&ChipInst::new(0xF633), None).unwrap();
    assert_eq!((chip.mem[0x300], chip.mem[0x301], chip.mem[0x302]), (0, 0, 7));
    chip.v[6] = 0;
    chip.execute(&ChipInst::new(0xF633), None).unwrap();
    assert_eq!((chip.mem[0x300], chip.mem[0x301], chip.mem[0x302]), (0, 0, 0));
}

#[test]
fn store_load_roundtrip_modern_keeps_index() {
    let mut chip = fresh();
    chip.i = 0x400;
    let vals = [3u8, 1, 4, 1, 5, 9, 2, 6];
    for (k, val) in vals.iter().enumerate() {
        chip.v[k] = *val;
    }
    chip.execute(&ChipInst::new(0xF755), None).unwrap();
    assert_eq!(chip.i, 0x400);
    for k in 0..16 {
        chip.v[k] = 0;
    }
    chip.execute(&ChipInst::new(0xF765), None).unwrap();
    assert_eq!(chip.i, 0x400);
    for (k, val) in vals.iter().enumerate() {
        assert_eq!(chip.v[k], *val);
    }
    for k in 8..16 {
        assert_eq!(chip.v[k], 0);
    }
}

#[test]
fn store_load_advance_index_in_legacy_mode() {
    let mut chip = legacy_save();
    chip.i = 0x400;
    chip.execute(&ChipInst::new(0xF355), None).unwrap();
    assert_eq!(chip.i, 0x404);
    chip.execute(&ChipInst::new(0xF365), None).unwrap();
    assert_eq!(chip.i, 0x408);
}

#[test]
fn index_add_without_carry_flag() {
    let mut chip = fresh();
    chip.i = 0x0FFF;
    chip.v[1] = 2;
    chip.v[15] = 0xCC;
    chip.execute(&ChipInst::new(0xF11E), None).unwrap();
    assert_eq!(chip.i, 0x1001);
    assert_eq!(chip.v[15], 0xCC);
}

#[test]
fn index_add_with_carry_flag() {
    let mut chip = Chip8::new(ChipCfg {
        font_start: 0x050,
        jump_offset_legacy: false,
        register_save_legacy: false,
        index_add_carry: true,
    });
    chip.i = 0x0FFE;
    chip.v[1] = 1;
    chip.execute(&ChipInst::new(0xF11E), None).unwrap();
    assert_eq!(chip.i, 0x0FFF);
    assert_eq!(chip.v[15], 0);
    chip.execute(&ChipInst::new(0xF11E), None).unwrap();
    assert_eq!(chip.i, 0x1000);
    assert_eq!(chip.v[15], 1);
    chip.execute(&ChipInst::new(0xF11E), None).unwrap();
    assert_eq!(chip.i, 0x1001);
    assert_eq!(chip.v[15], 0);
}

#[test]
fn timer_reads_and_writes() {
    let mut chip = fresh();
    chip.v[1] = 42;
    chip.execute(&ChipInst::new(0xF115), None).unwrap();
    assert_eq!(chip.dt, 42);
    chip.execute(&ChipInst::new(0xF218), None).unwrap();
    assert_eq!(chip.st, chip.v[2]);
    chip.execute(&ChipInst::new(0xF307), None).unwrap();
    assert_eq!(chip.v[3], 42);
}
