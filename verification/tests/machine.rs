use chip8::chip8::Chip8;
use chip8::config::ChipCfg;
use chip8::errors::Chip8Error;
use chip8::instruction::ChipInst;
use chip8::keypad::Keypad;

fn fresh() -> Chip8 {
    Chip8::new(ChipCfg::default())
}

#[test]
fn fresh_machine_starts_at_0x200() {
    let chip = fresh();
    assert_eq!(chip.pc, 0x200);
    assert_eq!(chip.i, 0);
    assert_eq!(chip.sp, 0);
    assert!(!chip.has_exited());
    assert!(!chip.sound_active());
}

#[test]
fn load_program_places_bytes_at_0x200() {
    let mut chip = fresh();
    chip.load_program(&[0xAA, 0xBB, 0xCC]).unwrap();
    assert_eq!(chip.mem[0x200], 0xAA);
    assert_eq!(chip.mem[0x201], 0xBB);
    assert_eq!(chip.mem[0x202], 0xCC);
    assert_eq!(chip.mem[0x203], 0);
}

#[test]
fn load_program_too_large_is_rejected() {
    let mut chip = fresh();
    let big = vec![0u8; 3585];
    assert_eq!(chip.load_program(&big), Err(Chip8Error::ProgramTooLarge));
    assert_eq!(chip.mem[0x200], 0);
    let fits = vec![1u8; 3584];
    assert!(chip.load_program(&fits).is_ok());
    assert_eq!(chip.mem[4095], 1);
}

#[test]
fn load_default_font_writes_the_glyph_table() {
    let mut chip = fresh();
    chip.load_default_font();
    // '0' glyph at the font start.
    assert_eq!(&chip.mem[0x050..0x055], &[0xF0, 0x90, 0x90, 0x90, 0xF0]);
    // 'F' glyph, the sixteenth.
    assert_eq!(&chip.mem[0x050 + 75..0x050 + 80], &[0xF0, 0x80, 0xF0, 0x80, 0x80]);
    assert_eq!(chip.mem[0x050 + 80], 0);
}

#[test]
fn load_font_writes_at_configured_start() {
    let mut chip = Chip8::new(ChipCfg {
        font_start: 0x100,
        jump_offset_legacy: false,
        register_save_legacy: false,
        index_add_carry: false,
    });
    let table = [7u8; 80];
    chip.load_font(&table);
    assert_eq!(chip.mem[0x0FF], 0);
    assert_eq!(chip.mem[0x100], 7);
    assert_eq!(chip.mem[0x14F], 7);
    assert_eq!(chip.mem[0x150], 0);
}

#[test]
fn fetch_reads_big_endian_and_advances() {
    let mut chip = fresh();
    chip.load_program(&[0x12, 0x34]).unwrap();
    let inst = chip.fetch().unwrap();
    assert_eq!(inst.full, 0x1234);
    assert_eq!(inst.i, 0x1);
    assert_eq!(inst.nnn, 0x234);
    assert_eq!(chip.pc, 0x202);
}

#[test]
fn fetch_at_end_of_memory_is_rejected() {
    let mut chip = fresh();
    chip.pc = 4095;
    assert_eq!(chip.fetch().unwrap_err(), Chip8Error::OutOfBounds { index: 4095 });
    assert_eq!(chip.pc, 4095);
}

#[test]
fn unknown_opcode_reports_address_and_word() {
    let mut chip = fresh();
    chip.load_program(&[0x00, 0x00]).unwrap();
    let inst = chip.fetch().unwrap();
    assert_eq!(
        chip.execute(&inst, None).unwrap_err(),
        Chip8Error::UnknownOpcode { addr: 0x200, word: 0x0000 },
    );
    for word in [0x0123u16, 0x8009, 0x800A, 0xE000, 0xF000, 0xF0FF] {
        let r = chip.execute(&ChipInst::new(word), None);
        assert!(matches!(r, Err(Chip8Error::UnknownOpcode { .. })), "{word:04X}");
    }
}

#[test]
fn return_with_empty_stack_underflows() {
    let mut chip = fresh();
    assert_eq!(
        chip.execute(&ChipInst::new(0x00EE), None).unwrap_err(),
        Chip8Error::StackUnderflow,
    );
    assert_eq!(chip.pc, 0x200);
}

#[test]
fn call_past_depth_32_overflows() {
    let mut chip = fresh();
    for _ in 0..32 {
        chip.execute(&ChipInst::new(0x2300), None).unwrap();
    }
    assert_eq!(chip.sp, 32);
    assert_eq!(
        chip.execute(&ChipInst::new(0x2300), None).unwrap_err(),
        Chip8Error::StackOverflow,
    );
    assert_eq!(chip.sp, 32);
}

#[test]
fn bcd_near_end_of_memory_is_rejected() {
    let mut chip = fresh();
    chip.i = 4094;
    chip.v[1] = 123;
    assert_eq!(
        chip.execute(&ChipInst::new(0xF133), None).unwrap_err(),
        Chip8Error::OutOfBounds { index: 4094 },
    );
    chip.i = 4093;
    chip.execute(&ChipInst::new(0xF133), None).unwrap();
    assert_eq!(&chip.mem[4093..4096], &[1, 2, 3]);
}

#[test]
fn store_past_end_of_memory_is_rejected() {
    let mut chip = fresh();
    chip.i = 4090;
    assert_eq!(
        chip.execute(&ChipInst::new(0xF655), None).unwrap_err(),
        Chip8Error::OutOfBounds { index: 4090 },
    );
    assert_eq!(
        chip.execute(&ChipInst::new(0xF665), None).unwrap_err(),
        Chip8Error::OutOfBounds { index: 4090 },
    );
    chip.execute(&ChipInst::new(0xF555), None).unwrap();
}

#[test]
fn draw_read_past_end_of_memory_is_rejected() {
    let mut chip = fresh();
    chip.i = 4094;
    chip.v[0] = 0;
    assert_eq!(
        chip.execute(&ChipInst::new(0xD003), None).unwrap_err(),
        Chip8Error::OutOfBounds { index: 4094 },
    );
    chip.execute(&ChipInst::new(0xD002), None).unwrap();
}

#[test]
fn key_skip_instructions_follow_snapshot() {
    let mut chip = fresh();
    chip.pc = 0x300;
    chip.v[1] = 5;
    let keys = Keypad::new(1 << 5);
    chip.execute(&ChipInst::new(0xE19E), Some(&keys)).unwrap();
    assert_eq!(chip.pc, 0x302);
    chip.execute(&ChipInst::new(0xE1A1), Some(&keys)).unwrap();
    assert_eq!(chip.pc, 0x302);
    let none_held = Keypad::new(0);
    chip.execute(&ChipInst::new(0xE19E), Some(&none_held)).unwrap();
    assert_eq!(chip.pc, 0x302);
    chip.execute(&ChipInst::new(0xE1A1), Some(&none_held)).unwrap();
    assert_eq!(chip.pc, 0x304);
    // No snapshot at all behaves like no key held.
    chip.execute(&ChipInst::new(0xE19E), None).unwrap();
    assert_eq!(chip.pc, 0x304);
}

#[test]
fn wait_for_key_rewinds_until_one_is_held() {
    let mut chip = fresh();
    chip.pc = 0x302;  // as after fetching the FX0A at 0x300
    chip.execute(&ChipInst::new(0xF20A), None).unwrap();
    assert_eq!(chip.pc, 0x300);
    chip.pc = 0x302;
    let keys = Keypad::new((1 << 9) | (1 << 12));
    chip.execute(&ChipInst::new(0xF20A), Some(&keys)).unwrap();
    assert_eq!(chip.pc, 0x302);
    assert_eq!(chip.v[2], 9);
}

#[test]
fn timers_tick_down_and_stop_at_zero() {
    let mut chip = fresh();
    chip.dt = 2;
    chip.st = 1;
    chip.update_timers();
    assert_eq!((chip.dt, chip.st), (1, 0));
    chip.update_timers();
    assert_eq!((chip.dt, chip.st), (0, 0));
    chip.update_timers();
    assert_eq!((chip.dt, chip.st), (0, 0));
}

#[test]
fn request_exit_is_observable() {
    let mut chip = fresh();
    assert!(!chip.has_exited());
    chip.request_exit();
    assert!(chip.has_exited());
}

#[test]
fn clear_jump_scenario_loops_tightly() {
    // 00E0 then 1200 at 0x200: an infinite tight loop with a cleared
    // framebuffer, the program counter cycling between 0x200 and 0x202.
    let mut chip = fresh();
    chip.load_program(&[0x00, 0xE0, 0x12, 0x00]).unwrap();
    chip.disp.tab[3] = 0xFFFF;
    let inst = chip.fetch().unwrap();
    assert_eq!(chip.pc, 0x202);
    chip.execute(&inst, None).unwrap();
    for r in 0..32 {
        assert_eq!(chip.row(r), 0);
    }
    let inst = chip.fetch().unwrap();
    assert_eq!(chip.pc, 0x204);
    chip.execute(&inst, None).unwrap();
    assert_eq!(chip.pc, 0x200);
    let inst = chip.fetch().unwrap();
    assert_eq!(inst.full, 0x00E0);
    assert_eq!(chip.pc, 0x202);
}

#[test]
fn sound_timer_scenario_silences_after_one_tick() {
    // 6001 (V0 <- 1) then F018 (sound timer <- V0): after one timer tick
    // the sound timer is back at 0 and the audio device goes silent.
    let mut chip = fresh();
    chip.load_program(&[0x60, 0x01, 0xF0, 0x18]).unwrap();
    let inst = chip.fetch().unwrap();
    chip.execute(&inst, None).unwrap();
    let inst = chip.fetch().unwrap();
    chip.execute(&inst, None).unwrap();
    assert_eq!(chip.st, 1);
    assert!(chip.sound_active());
    chip.update_timers();
    assert_eq!(chip.st, 0);
    assert!(!chip.sound_active());
}
