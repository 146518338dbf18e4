use attalus::mapper::MemoryMapperType;
use attalus::sms::{Sms, SmsOptions};
use attalus::vdp::TvSystem;
use attalus::z80::{Reg16, Reg8};

/// A session on a 32 KiB ROM holding `program` at address 0, run for
/// `steps` instructions.
fn run(program: &[u8], steps: usize) -> Sms {
    let mut rom = vec![0u8; 0x8000];
    rom[..program.len()].copy_from_slice(program);
    let options = SmsOptions { tv_system: TvSystem::Ntsc, frequency: None };
    let mut sms = Sms::from_rom(&rom, MemoryMapperType::Sega, options, 0).unwrap();
    for _ in 0..steps {
        sms.step();
    }
    sms
}

#[test]
fn ldir_copies_a_block() {
    // ld hl,0x0100; ld de,0xC000; ld bc,3; ldir
    let mut program = vec![0x21, 0x00, 0x01, 0x11, 0x00, 0xC0, 0x01, 0x03, 0x00, 0xED, 0xB0];
    program.resize(0x100, 0);
    program.extend_from_slice(&[9, 8, 7]);
    let sms = run(&program, 3 + 3);
    assert_eq!(sms.mem.read(0xC000), 9);
    assert_eq!(sms.mem.read(0xC001), 8);
    assert_eq!(sms.mem.read(0xC002), 7);
    assert_eq!(sms.z80.reg16(Reg16::BC), 0);
    assert_eq!(sms.z80.reg16(Reg16::PC), 11);
    // 10 + 10 + 10 + 21 + 21 + 16
    assert_eq!(sms.z80.cycles(), 88);
}

#[test]
fn djnz_counts_down() {
    // ld b,4; xor a; loop: inc a; djnz loop
    let sms = run(&[0x06, 0x04, 0xAF, 0x3C, 0x10, 0xFD], 2 + 8);
    assert_eq!(sms.z80.reg8(Reg8::A), 4);
    assert_eq!(sms.z80.reg8(Reg8::B), 0);
    assert_eq!(sms.z80.reg16(Reg16::PC), 6);
}

#[test]
fn push_af_pop_bc_and_ex_sp() {
    // ld a,0x12; scf; push af; pop bc; ld hl,0xABCD; push hl; ld hl,0; ex (sp),hl
    let sms = run(&[0x3E, 0x12, 0x37, 0xF5, 0xC1, 0x21, 0xCD, 0xAB, 0xE5, 0x21, 0x00, 0x00, 0xE3], 8);
    assert_eq!(sms.z80.reg8(Reg8::B), 0x12);
    assert_eq!(sms.z80.reg8(Reg8::C) & 1, 1);
    assert_eq!(sms.z80.reg16(Reg16::HL), 0xABCD);
    assert_eq!(sms.mem.read16(sms.z80.reg16(Reg16::SP)), 0);
}

#[test]
fn bit_set_res_and_rld() {
    // ld a,0x80; bit 7,a; set 0,a; res 7,a; ld hl,0xC000; ld (hl),0x34; ld a,0x12; rld
    let sms = run(
        &[0x3E, 0x80, 0xCB, 0x7F, 0xCB, 0xC7, 0xCB, 0xBF, 0x21, 0x00, 0xC0, 0x36, 0x34, 0x3E, 0x12, 0xED, 0x6F],
        8,
    );
    assert_eq!(sms.z80.reg8(Reg8::A), 0x13);
    assert_eq!(sms.mem.read(0xC000), 0x42);
    let sms = run(&[0x3E, 0x80, 0xCB, 0x7F, 0xCB, 0xC7, 0xCB, 0xBF], 4);
    assert_eq!(sms.z80.reg8(Reg8::A), 0x01);
}

#[test]
fn indexed_negative_displacement() {
    // ld iy,0xC010; ld (iy-2),0x55; ld a,(iy-2); inc (iy-2)
    let sms = run(&[0xFD, 0x21, 0x10, 0xC0, 0xFD, 0x36, 0xFE, 0x55, 0xFD, 0x7E, 0xFE, 0xFD, 0x34, 0xFE], 4);
    assert_eq!(sms.z80.reg8(Reg8::A), 0x55);
    assert_eq!(sms.mem.read(0xC00E), 0x56);
    assert_eq!(sms.z80.cycles(), 14 + 19 + 19 + 23);
}

#[test]
fn sixteen_bit_arithmetic() {
    // ld hl,0xFFFF; ld de,1; add hl,de; ld hl,0x1000; or a; sbc hl,de
    let sms = run(&[0x21, 0xFF, 0xFF, 0x11, 0x01, 0x00, 0x19], 3);
    assert_eq!(sms.z80.reg16(Reg16::HL), 0);
    assert_eq!(sms.z80.reg8(Reg8::F) & 1, 1);
    let sms = run(&[0x21, 0x00, 0x10, 0x11, 0x01, 0x00, 0xB7, 0xED, 0x52], 4);
    assert_eq!(sms.z80.reg16(Reg16::HL), 0x0FFF);
}

#[test]
fn call_and_ret() {
    // ld sp,0xDFF0; call 0x0010; halt ... 0x0010: ld a,7; ret
    let mut program = vec![0x31, 0xF0, 0xDF, 0xCD, 0x10, 0x00, 0x76];
    program.resize(0x10, 0);
    program.extend_from_slice(&[0x3E, 0x07, 0xC9]);
    let sms = run(&program, 5);
    assert_eq!(sms.z80.reg8(Reg8::A), 7);
    assert_eq!(sms.z80.reg16(Reg16::PC), 7);
    assert_eq!(sms.z80.reg16(Reg16::SP), 0xDFF0);
}

#[test]
fn out_to_vdp_control_port_sets_register() {
    // ld a,0x20; out (0xBF),a; ld a,0x81; out (0xBF),a
    let sms = run(&[0x3E, 0x20, 0xD3, 0xBF, 0x3E, 0x81, 0xD3, 0xBF], 4);
    assert_eq!(sms.vdp.registers[1], 0x20);
}

#[test]
fn sound_writes_are_timed() {
    // ld a,0x9F; out (0x7F),a
    let sms = run(&[0x3E, 0x9F, 0xD3, 0x7F], 2);
    assert_eq!(sms.sound_writes.len(), 1);
    assert_eq!(sms.sound_writes[0].value, 0x9F);
    assert_eq!(sms.sound_writes[0].cycles, 7 + 11);
}

#[test]
fn joypad_read() {
    // in a,(0xDC)
    let sms = run(&[0xDB, 0xDC], 1);
    assert_eq!(sms.z80.reg8(Reg8::A), 0xFF);
}

#[test]
fn frame_interrupt_is_serviced_in_mode_1() {
    // im 1; ei; ld a,0x20; out (0xBF),a; ld a,0x81; out (0xBF),a; loop: jr loop
    // at 0x38: in a,(0xBF); ld b,a; halt
    let mut program = vec![0xED, 0x56, 0xFB, 0x3E, 0x20, 0xD3, 0xBF, 0x3E, 0x81, 0xD3, 0xBF, 0x18, 0xFE];
    program.resize(0x38, 0);
    program.extend_from_slice(&[0xDB, 0xBF, 0x47, 0x76]);
    let mut rom = vec![0u8; 0x8000];
    rom[..program.len()].copy_from_slice(&program);
    let options = SmsOptions { tv_system: TvSystem::Ntsc, frequency: None };
    let mut sms = Sms::from_rom(&rom, MemoryMapperType::Sega, options, 0).unwrap();
    sms.run_frame();
    assert_eq!(sms.z80.reg8(Reg8::B) & 0x80, 0x80);
    assert!(!sms.z80.iff1());
}
