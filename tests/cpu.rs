use attalus::alu::{alu_add, alu_daa, alu_sub, alu_shift, Shift, CF, HF, NF, PF, SF, ZF};
use attalus::instructions::{call, pop, push};
use attalus::interpreter::{decode, execute, Instr};
use attalus::interrupts::{maskable_interrupt, nonmaskable_interrupt};
use attalus::mapper::{MemoryMapperType, SmsMemory};
use attalus::z80::{Operand8, Reg16, Reg8, Z80State};

fn memory_with(program: &[u8]) -> SmsMemory {
    let mut rom = vec![0u8; 0x8000];
    rom[..program.len()].copy_from_slice(program);
    SmsMemory::new(&rom, MemoryMapperType::Sega).unwrap()
}

#[test]
fn add_flags() {
    assert_eq!(alu_add(0x7F, 1, false), (0x80, SF | HF | PF));
    assert_eq!(alu_add(0xFF, 1, false), (0x00, ZF | HF | CF));
    assert_eq!(alu_add(0x10, 0x20, true), (0x31, 0));
}

#[test]
fn sub_flags() {
    assert_eq!(alu_sub(0x80, 1, false), (0x7F, HF | PF | NF));
    assert_eq!(alu_sub(0, 1, false), (0xFF, SF | HF | NF | CF));
    assert_eq!(alu_sub(5, 5, false), (0, ZF | NF));
}

#[test]
fn daa_after_bcd_add() {
    // 0x15 + 0x27 = 0x3C, adjusted to 0x42
    let (r, f) = alu_add(0x15, 0x27, false);
    assert_eq!(alu_daa(r, f).0, 0x42);
}

#[test]
fn rotations() {
    assert_eq!(alu_shift(Shift::Rlc, 0x81, 0), (0x03, PF | CF));
    assert_eq!(alu_shift(Shift::Srl, 0x01, 0), (0x00, ZF | PF | CF));
    assert_eq!(alu_shift(Shift::Sra, 0x80, 0), (0xC0, SF | PF));
}

#[test]
fn push_then_pop_round_trip() {
    let mut mem = memory_with(&[]);
    let mut z = Z80State::new();
    z.set_reg16(Reg16::SP, 0xDFF0);
    z.set_reg16(Reg16::BC, 0xBEEF);
    push(&mut z, &mut mem, Reg16::BC);
    assert_eq!(z.reg16(Reg16::SP), 0xDFEE);
    assert_eq!(mem.read(0xDFEF), 0xBE);
    assert_eq!(mem.read(0xDFEE), 0xEF);
    pop(&mut z, &mem, Reg16::DE);
    assert_eq!(z.reg16(Reg16::DE), 0xBEEF);
    assert_eq!(z.reg16(Reg16::SP), 0xDFF0);
}

#[test]
fn call_pushes_return_address() {
    let mut mem = memory_with(&[]);
    let mut z = Z80State::new();
    z.set_reg16(Reg16::SP, 0xE000);
    z.set_reg16(Reg16::PC, 0x0103);
    call(&mut z, &mut mem, 0x2000);
    assert_eq!(z.reg16(Reg16::PC), 0x2000);
    assert_eq!(mem.read16(0xDFFE), 0x0103);
}

#[test]
fn decode_and_execute_program() {
    // ld a, 5; add a, 3; ld (ix+2), a
    let mem0 = memory_with(&[0x3E, 0x05, 0xC6, 0x03, 0xDD, 0x77, 0x02]);
    let mut mem = mem0;
    let mut z = Z80State::new();
    z.set_reg16(Reg16::IX, 0xC000);
    let mut pc = 0u16;
    for _ in 0..3 {
        let d = decode(&mem, pc);
        pc = pc.wrapping_add(d.len);
        z.set_reg16(Reg16::PC, pc);
        execute(&mut z, &mut mem, d.instr);
    }
    assert_eq!(z.reg8(Reg8::A), 8);
    assert_eq!(mem.read(0xC002), 8);
    assert_eq!(pc, 7);
}

#[test]
fn decode_lengths_and_costs() {
    let mem = memory_with(&[0x00, 0xCB, 0x06, 0xED, 0xB0, 0xFD, 0xCB, 0x05, 0x46, 0x21, 0x34, 0x12]);
    let d = decode(&mem, 0);
    assert_eq!((d.instr, d.len, d.cycles), (Instr::Nop, 1, 4));
    let d = decode(&mem, 1);
    assert_eq!((d.instr, d.len, d.cycles), (Instr::Shift(Shift::Rlc, Operand8::Ind(Reg16::HL)), 2, 15));
    let d = decode(&mem, 3);
    assert_eq!((d.instr, d.len, d.cycles), (Instr::Ldir, 2, 16));
    let d = decode(&mem, 5);
    assert_eq!((d.instr, d.len, d.cycles), (Instr::Bit(0, Operand8::Shift(Reg16::IY, 5)), 4, 20));
    let d = decode(&mem, 9);
    assert_eq!(d.len, 3);
    assert_eq!(d.cycles, 10);
}

#[test]
fn maskable_interrupt_needs_iff1() {
    let mut mem = memory_with(&[]);
    let mut z = Z80State::new();
    z.set_reg16(Reg16::PC, 0x1234);
    z.set_interrupt_mode(1);
    assert!(!maskable_interrupt(&mut z, &mut mem, 0xFF));
    assert_eq!(z.reg16(Reg16::PC), 0x1234);
}

#[test]
fn maskable_interrupt_mode_1() {
    let mut mem = memory_with(&[]);
    let mut z = Z80State::new();
    z.set_reg16(Reg16::PC, 0x1234);
    z.set_reg16(Reg16::SP, 0xDFF0);
    z.set_interrupt_mode(1);
    z.set_iff1(true);
    z.set_iff2(true);
    assert!(maskable_interrupt(&mut z, &mut mem, 0xFF));
    assert_eq!(z.reg16(Reg16::PC), 0x38);
    assert_eq!(z.reg16(Reg16::SP), 0xDFEE);
    assert_eq!(mem.read(0xDFEF), 0x12);
    assert_eq!(mem.read(0xDFEE), 0x34);
    assert!(!z.iff1() && !z.iff2());
    assert_eq!(z.cycles(), 13);
}

#[test]
fn nonmaskable_interrupt_keeps_iff2() {
    let mut mem = memory_with(&[]);
    let mut z = Z80State::new();
    z.set_reg16(Reg16::SP, 0xDFF0);
    z.set_iff1(true);
    z.set_iff2(true);
    nonmaskable_interrupt(&mut z, &mut mem);
    assert_eq!(z.reg16(Reg16::PC), 0x66);
    assert!(!z.iff1());
    assert!(z.iff2());
    assert_eq!(z.cycles(), 11);
}
