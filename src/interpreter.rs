//! The Z80 interpreter's decoder and executor.
//!
//! `decode` reads one instruction at the program counter, prefixes included,
//! into an `Instr` with its length and base cycle cost. `execute` performs a
//! decoded instruction that needs no I/O port; the console's session
//! performs the port instructions itself.

use vstd::prelude::*;
use crate::alu::{spec_flags, Shift, CF, HF, NF, PF, SF, ZF};
use crate::instructions::{
    adc, add_16, adc_sbc_16, and, bit, call, callcc, cp, cpd, cpdr, cpi, cpir, daa_a, dec, ex,
    inc, jp, ld, ld16, ldd, lddr, ldi, ldir, or, pop, push, repeat, ret, retcc, reti, retn, rld,
    rrd, rst, sbc, sem_arith, sem_bit, sem_call, sem_cp, sem_cpid, sem_ex, sem_inc_dec, sem_ld,
    sem_ld16, sem_ldid, sem_logic, sem_pop, sem_push_value, sem_ret, sem_retn, sem_rld,
    sem_set_res, sem_set_res_store, sem_shift, sem_shift_a, sem_shift_store, set_a_and_f, set_a_f,
    set_res, set_res_store, shift, shift_accumulator, shift_store, xor, LogicOp, Machine,
};
use crate::mapper::{MemState, SmsMemory};
use crate::z80::{
    displace, spec_displace, ConditionCode, Operand16, Operand8, Reg16, Reg8, Z80State, Z80View,
};

verus! {

/// The block I/O instructions.
#[derive(Clone, Copy, Debug, PartialEq, Eq, Structural)]
pub enum BlockIo {
    Ini,
    Ind,
    Inir,
    Indr,
    Outi,
    Outd,
    Otir,
    Otdr,
}

/// A decoded instruction.
#[derive(Clone, Copy, Debug, PartialEq, Eq, Structural)]
pub enum Instr {
    Nop,
    Halt,
    Di,
    Ei,
    Im(u8),
    Ld(Operand8, Operand8),
    Ld16(Operand16, Operand16),
    Add(Reg8, Operand8),
    Adc(Reg8, Operand8),
    Sub(Reg8, Operand8),
    Sbc(Reg8, Operand8),
    Logic(LogicOp, Operand8),
    Cp(Operand8),
    Inc(Operand8),
    Dec(Operand8),
    Inc16(Reg16),
    Dec16(Reg16),
    Add16(Reg16, Reg16),
    Adc16(Reg16),
    Sbc16(Reg16),
    Shift(Shift, Operand8),
    ShiftStore(Shift, Operand8, Reg8),
    ShiftA(Shift),
    Bit(u8, Operand8),
    SetRes(u8, Operand8, bool),
    SetResStore(u8, Operand8, bool, Reg8),
    Daa,
    Cpl,
    Neg,
    Scf,
    Ccf,
    Jp(Operand16),
    JpCc(ConditionCode, u16),
    Jr(u8),
    JrCc(ConditionCode, u8),
    Djnz(u8),
    Call(u16),
    CallCc(ConditionCode, u16),
    Ret,
    RetCc(ConditionCode),
    Retn,
    Reti,
    Rst(u16),
    Push(Reg16),
    Pop(Reg16),
    ExAf,
    Exx,
    Ex(Operand16, Reg16),
    Ldi,
    Ldd,
    Ldir,
    Lddr,
    Cpi,
    Cpd,
    Cpir,
    Cpdr,
    Rld,
    Rrd,
    /// `ld a, i` or `ld a, r`, which also set flags.
    LdAIR(Reg8),
    /// `in a, (n)`.
    InImm(u8),
    /// `in r, (c)`; with no register only the flags are set.
    InC(Option<Reg8>),
    /// `out (n), a`.
    OutImm(u8),
    /// `out (c), r`; with no register a zero is written.
    OutC(Option<Reg8>),
    Block(BlockIo),
}

impl Instr {
    /// Whether the instruction uses an I/O port.
    pub open spec fn spec_is_io(self) -> bool {
        self is InImm || self is InC || self is OutImm || self is OutC || self is Block
    }

    #[verifier::when_used_as_spec(spec_is_io)]
    pub fn is_io(self) -> (r: bool)
        ensures
            r == self.spec_is_io(),
    {
        match self {
            Instr::InImm(_) | Instr::InC(_) | Instr::OutImm(_) | Instr::OutC(_) | Instr::Block(_) => true,
            _ => false,
        }
    }
}

/// A decoded instruction with its length in bytes and its base cycle cost.
#[derive(Clone, Copy, Debug, PartialEq, Eq, Structural)]
pub struct Decoded {
    pub instr: Instr,
    pub len: u16,
    pub cycles: u64,
}

/// Register `i` of the r-table: B, C, D, E, H, L, (HL), A; entry 6 is the
/// memory operand and has no register.
pub open spec fn spec_reg_of(i: u8) -> Reg8 {
    match i {
        0 => Reg8::B,
        1 => Reg8::C,
        2 => Reg8::D,
        3 => Reg8::E,
        4 => Reg8::H,
        5 => Reg8::L,
        _ => Reg8::A,
    }
}

/// The accumulator operation of row `y` of the arithmetic table, on `src`.
pub open spec fn alu_instr(y: u8, src: Operand8) -> Instr {
    match y {
        0 => Instr::Add(Reg8::A, src),
        1 => Instr::Adc(Reg8::A, src),
        2 => Instr::Sub(Reg8::A, src),
        3 => Instr::Sbc(Reg8::A, src),
        4 => Instr::Logic(LogicOp::And, src),
        5 => Instr::Logic(LogicOp::Xor, src),
        6 => Instr::Logic(LogicOp::Or, src),
        _ => Instr::Cp(src),
    }
}

/// Row `y` of the rotation and shift table.
pub open spec fn spec_shift_of(y: u8) -> Shift {
    match y {
        0 => Shift::Rlc,
        1 => Shift::Rrc,
        2 => Shift::Rl,
        3 => Shift::Rr,
        4 => Shift::Sla,
        5 => Shift::Sra,
        6 => Shift::Sll,
        _ => Shift::Srl,
    }
}

/// Operand `i` of the r-table: a register, or (HL) for entry 6.
pub open spec fn r_operand(i: u8) -> Operand8 {
    if i == 6 {
        Operand8::Ind(Reg16::HL)
    } else {
        Operand8::Reg(spec_reg_of(i))
    }
}

/// What a CB-prefixed opcode `op` decodes to: rotations and shifts, `bit`,
/// `res` and `set`, on the operand its low three bits name.
pub open spec fn cb_instr(op: u8) -> Instr {
    let x = op / 64;
    let y = (op / 8) % 8;
    let target = r_operand(op % 8);
    if x == 0 {
        Instr::Shift(spec_shift_of(y), target)
    } else if x == 1 {
        Instr::Bit(y, target)
    } else {
        Instr::SetRes(y, target, x == 3)
    }
}

/// The instruction, length and base cost that representative opcode rows
/// decode to: a few one-byte instructions, the register-to-register loads,
/// the accumulator arithmetic on registers, the whole CB table, and the
/// repeating block moves and outputs of the ED table.
pub open spec fn decodes_as(m: MemState, pc: u16, d: Decoded) -> bool {
    &&& decodes_as_unprefixed(m, pc, d)
    &&& decodes_as_immediates(m, pc, d)
    &&& decodes_as_pairs_and_flow(m, pc, d)
    &&& decodes_as_prefixed(m, pc, d)
}

/// The unprefixed rows of `decodes_as`.
#[verifier::opaque]
pub open spec fn decodes_as_unprefixed(m: MemState, pc: u16, d: Decoded) -> bool {
    let op = m.read(pc);
    let n = m.read(pc.wrapping_add(1));
    let nn = m.read16(pc.wrapping_add(1));
    &&& op == 0x00 ==> d == Decoded { instr: Instr::Nop, len: 1, cycles: 4 }
    &&& op == 0x76 ==> d == Decoded { instr: Instr::Halt, len: 1, cycles: 4 }
    &&& op == 0xF3 ==> d == Decoded { instr: Instr::Di, len: 1, cycles: 4 }
    &&& op == 0xFB ==> d == Decoded { instr: Instr::Ei, len: 1, cycles: 4 }
    &&& op == 0xC3 ==> d == Decoded { instr: Instr::Jp(Operand16::Imm(nn)), len: 3, cycles: 10 }
    &&& op == 0xCD ==> d == Decoded { instr: Instr::Call(nn), len: 3, cycles: 17 }
    &&& op == 0xC9 ==> d == Decoded { instr: Instr::Ret, len: 1, cycles: 10 }
    &&& op >= 0xC0 && op % 8 == 7 ==> d == Decoded {
        instr: Instr::Rst((op - 0xC7) as u16),
        len: 1,
        cycles: 11,
    }
    &&& 0x40 <= op < 0x80 && op % 8 != 6 && (op / 8) % 8 != 6 ==> d == Decoded {
        instr: Instr::Ld(
            Operand8::Reg(spec_reg_of((op / 8) % 8)),
            Operand8::Reg(spec_reg_of(op % 8)),
        ),
        len: 1,
        cycles: 4,
    }
    &&& 0x80 <= op < 0xC0 && op % 8 != 6 ==> d == Decoded {
        instr: alu_instr((op / 8) % 8, Operand8::Reg(spec_reg_of(op % 8))),
        len: 1,
        cycles: 4,
    }
}

/// More unprefixed rows: immediate operands, increments and decrements.
#[verifier::opaque]
pub open spec fn decodes_as_immediates(m: MemState, pc: u16, d: Decoded) -> bool {
    let op = m.read(pc);
    let n = m.read(pc.wrapping_add(1));
    let nn = m.read16(pc.wrapping_add(1));
    &&& op >= 0xC0 && op % 8 == 6 ==> d == Decoded {
        instr: alu_instr((op / 8) % 8, Operand8::Imm(n)),
        len: 2,
        cycles: 7,
    }
    &&& op < 0x40 && op % 8 == 6 && op != 0x36 ==> d == Decoded {
        instr: Instr::Ld(Operand8::Reg(spec_reg_of(op / 8)), Operand8::Imm(n)),
        len: 2,
        cycles: 7,
    }
    &&& op == 0x36 ==> d == Decoded {
        instr: Instr::Ld(Operand8::Ind(Reg16::HL), Operand8::Imm(n)),
        len: 2,
        cycles: 10,
    }
    &&& op < 0x40 && op % 8 == 4 && op != 0x34 ==> d == Decoded {
        instr: Instr::Inc(Operand8::Reg(spec_reg_of(op / 8))),
        len: 1,
        cycles: 4,
    }
    &&& op < 0x40 && op % 8 == 5 && op != 0x35 ==> d == Decoded {
        instr: Instr::Dec(Operand8::Reg(spec_reg_of(op / 8))),
        len: 1,
        cycles: 4,
    }
    &&& op == 0x34 ==> d == Decoded { instr: Instr::Inc(Operand8::Ind(Reg16::HL)), len: 1, cycles: 11 }
    &&& op == 0x35 ==> d == Decoded { instr: Instr::Dec(Operand8::Ind(Reg16::HL)), len: 1, cycles: 11 }
}

/// More unprefixed rows: register pairs, relative jumps and conditional
/// flow, and the immediate-port instructions.
#[verifier::opaque]
pub open spec fn decodes_as_pairs_and_flow(m: MemState, pc: u16, d: Decoded) -> bool {
    let op = m.read(pc);
    let n = m.read(pc.wrapping_add(1));
    let nn = m.read16(pc.wrapping_add(1));
    &&& op < 0x40 && op % 16 == 1 ==> d == Decoded {
        instr: Instr::Ld16(Operand16::Reg(spec_pair_sp(op / 16, Reg16::HL)), Operand16::Imm(nn)),
        len: 3,
        cycles: 10,
    }
    &&& op < 0x40 && op % 16 == 3 ==> d == Decoded {
        instr: Instr::Inc16(spec_pair_sp(op / 16, Reg16::HL)),
        len: 1,
        cycles: 6,
    }
    &&& op < 0x40 && op % 16 == 11 ==> d == Decoded {
        instr: Instr::Dec16(spec_pair_sp(op / 16, Reg16::HL)),
        len: 1,
        cycles: 6,
    }
    &&& op < 0x40 && op % 16 == 9 ==> d == Decoded {
        instr: Instr::Add16(Reg16::HL, spec_pair_sp(op / 16, Reg16::HL)),
        len: 1,
        cycles: 11,
    }
    &&& op == 0x10 ==> d == Decoded { instr: Instr::Djnz(n), len: 2, cycles: 8 }
    &&& op == 0x18 ==> d == Decoded { instr: Instr::Jr(n), len: 2, cycles: 12 }
    &&& (op == 0x20 || op == 0x28 || op == 0x30 || op == 0x38) ==> d == Decoded {
        instr: Instr::JrCc(spec_condition((op / 8 - 4) as u8), n),
        len: 2,
        cycles: 7,
    }
    &&& op >= 0xC0 && op % 16 == 5 ==> d == Decoded {
        instr: Instr::Push(spec_pair_af(((op - 0xC0) / 16) as u8, Reg16::HL)),
        len: 1,
        cycles: 11,
    }
    &&& op >= 0xC0 && op % 16 == 1 ==> d == Decoded {
        instr: Instr::Pop(spec_pair_af(((op - 0xC0) / 16) as u8, Reg16::HL)),
        len: 1,
        cycles: 10,
    }
    &&& op >= 0xC0 && op % 8 == 0 ==> d == Decoded {
        instr: Instr::RetCc(spec_condition((op / 8) % 8)),
        len: 1,
        cycles: 5,
    }
    &&& op >= 0xC0 && op % 8 == 2 ==> d == Decoded {
        instr: Instr::JpCc(spec_condition((op / 8) % 8), nn),
        len: 3,
        cycles: 10,
    }
    &&& op >= 0xC0 && op % 8 == 4 ==> d == Decoded {
        instr: Instr::CallCc(spec_condition((op / 8) % 8), nn),
        len: 3,
        cycles: 10,
    }
    &&& op == 0xD3 ==> d == Decoded { instr: Instr::OutImm(n), len: 2, cycles: 11 }
    &&& op == 0xDB ==> d == Decoded { instr: Instr::InImm(n), len: 2, cycles: 11 }
}

/// Rows of the ED table, whose second byte is at `at`.
#[verifier::opaque]
pub open spec fn ed_rows(m: MemState, at: u16, d: Decoded) -> bool {
    let op = m.read(at);
    let y = (op / 8) % 8;
    &&& op == 0xB0 ==> d == Decoded { instr: Instr::Ldir, len: 2, cycles: 16 }
    &&& op == 0xB8 ==> d == Decoded { instr: Instr::Lddr, len: 2, cycles: 16 }
    &&& op == 0xB1 ==> d == Decoded { instr: Instr::Cpir, len: 2, cycles: 16 }
    &&& op == 0xB9 ==> d == Decoded { instr: Instr::Cpdr, len: 2, cycles: 16 }
    &&& op == 0xA0 ==> d == Decoded { instr: Instr::Ldi, len: 2, cycles: 16 }
    &&& op == 0xA1 ==> d == Decoded { instr: Instr::Cpi, len: 2, cycles: 16 }
    &&& op == 0xB3 ==> d == Decoded { instr: Instr::Block(BlockIo::Otir), len: 2, cycles: 16 }
    &&& op == 0xA3 ==> d == Decoded { instr: Instr::Block(BlockIo::Outi), len: 2, cycles: 16 }
    &&& op == 0xB2 ==> d == Decoded { instr: Instr::Block(BlockIo::Inir), len: 2, cycles: 16 }
    &&& op == 0x44 ==> d == Decoded { instr: Instr::Neg, len: 2, cycles: 8 }
    &&& op == 0x45 ==> d == Decoded { instr: Instr::Retn, len: 2, cycles: 14 }
    &&& op == 0x4D ==> d == Decoded { instr: Instr::Reti, len: 2, cycles: 14 }
    &&& op == 0x46 ==> d == Decoded { instr: Instr::Im(0), len: 2, cycles: 8 }
    &&& op == 0x56 ==> d == Decoded { instr: Instr::Im(1), len: 2, cycles: 8 }
    &&& op == 0x5E ==> d == Decoded { instr: Instr::Im(2), len: 2, cycles: 8 }
    &&& op == 0x47 ==> d == Decoded {
        instr: Instr::Ld(Operand8::Reg(Reg8::I), Operand8::Reg(Reg8::A)),
        len: 2,
        cycles: 9,
    }
    &&& op == 0x57 ==> d == Decoded { instr: Instr::LdAIR(Reg8::I), len: 2, cycles: 9 }
    &&& op == 0x5F ==> d == Decoded { instr: Instr::LdAIR(Reg8::R), len: 2, cycles: 9 }
    &&& op == 0x6F ==> d == Decoded { instr: Instr::Rld, len: 2, cycles: 18 }
    &&& op == 0x67 ==> d == Decoded { instr: Instr::Rrd, len: 2, cycles: 18 }
    &&& 0x40 <= op < 0x80 && op % 8 == 0 && y != 6 ==> d == Decoded {
        instr: Instr::InC(Some(spec_reg_of(y))),
        len: 2,
        cycles: 12,
    }
    &&& 0x40 <= op < 0x80 && op % 8 == 1 && y != 6 ==> d == Decoded {
        instr: Instr::OutC(Some(spec_reg_of(y))),
        len: 2,
        cycles: 12,
    }
    &&& 0x40 <= op < 0x80 && op % 16 == 2 ==> d == Decoded {
        instr: Instr::Sbc16(spec_pair_sp(y / 2, Reg16::HL)),
        len: 2,
        cycles: 15,
    }
    &&& 0x40 <= op < 0x80 && op % 16 == 10 ==> d == Decoded {
        instr: Instr::Adc16(spec_pair_sp(y / 2, Reg16::HL)),
        len: 2,
        cycles: 15,
    }
}

/// Rows of the DD and FD tables, with `r` the index register the prefix
/// selects and the byte after the prefix at `at`; lengths and costs count
/// the prefix.
#[verifier::opaque]
pub open spec fn indexed_rows(m: MemState, at: u16, r: Reg16, d: Decoded) -> bool {
    let op = m.read(at);
    let disp = m.read(at.wrapping_add(1));
    let y = (op / 8) % 8;
    let z = op % 8;
    &&& op == 0x21 ==> d == Decoded {
        instr: Instr::Ld16(Operand16::Reg(r), Operand16::Imm(m.read16(at.wrapping_add(1)))),
        len: 4,
        cycles: 14,
    }
    &&& op == 0xE5 ==> d == Decoded { instr: Instr::Push(r), len: 2, cycles: 15 }
    &&& op == 0xE1 ==> d == Decoded { instr: Instr::Pop(r), len: 2, cycles: 14 }
    &&& op == 0xE9 ==> d == Decoded { instr: Instr::Jp(Operand16::Reg(r)), len: 2, cycles: 8 }
    &&& op == 0x09 ==> d == Decoded { instr: Instr::Add16(r, Reg16::BC), len: 2, cycles: 15 }
    &&& op == 0x34 ==> d == Decoded { instr: Instr::Inc(Operand8::Shift(r, disp)), len: 3, cycles: 23 }
    &&& op == 0x35 ==> d == Decoded { instr: Instr::Dec(Operand8::Shift(r, disp)), len: 3, cycles: 23 }
    &&& op == 0x36 ==> d == Decoded {
        instr: Instr::Ld(Operand8::Shift(r, disp), Operand8::Imm(m.read(at.wrapping_add(2)))),
        len: 4,
        cycles: 19,
    }
    &&& 0x40 <= op < 0x80 && z == 6 && y != 6 ==> d == Decoded {
        instr: Instr::Ld(Operand8::Reg(spec_reg_of(y)), Operand8::Shift(r, disp)),
        len: 3,
        cycles: 19,
    }
    &&& 0x70 <= op < 0x78 && op != 0x76 ==> d == Decoded {
        instr: Instr::Ld(Operand8::Shift(r, disp), Operand8::Reg(spec_reg_of(z))),
        len: 3,
        cycles: 19,
    }
    &&& 0x80 <= op < 0xC0 && z == 6 ==> d == Decoded {
        instr: alu_instr(y, Operand8::Shift(r, disp)),
        len: 3,
        cycles: 19,
    }
}

/// The prefixed rows of `decodes_as`.
#[verifier::opaque]
pub open spec fn decodes_as_prefixed(m: MemState, pc: u16, d: Decoded) -> bool {
    let op = m.read(pc);
    &&& op == 0xCB ==> d.instr == cb_instr(m.read(pc.wrapping_add(1))) && d.len == 2 && (m.read(
        pc.wrapping_add(1),
    ) % 8 != 6 ==> d.cycles == 8)
    &&& op == 0xED ==> ed_rows(m, pc.wrapping_add(1), d)
    &&& (op == 0xDD || op == 0xFD) ==> {
        let r = if op == 0xDD { Reg16::IX } else { Reg16::IY };
        let op2 = m.read(pc.wrapping_add(1));
        let o4 = m.read(pc.wrapping_add(3));
        &&& !(op2 == 0xCB || op2 == 0xDD || op2 == 0xED || op2 == 0xFD) ==> indexed_rows(
            m,
            pc.wrapping_add(1),
            r,
            d,
        )
        &&& op2 == 0xCB && o4 / 64 == 1 ==> d == Decoded {
            instr: Instr::Bit((o4 / 8) % 8, Operand8::Shift(r, m.read(pc.wrapping_add(2)))),
            len: 4,
            cycles: 20,
        }
    }
}

fn reg_of(i: u8) -> (r: Reg8)
    requires
        i < 8,
        i != 6,
    ensures
        r == spec_reg_of(i),
{
    match i {
        0 => Reg8::B,
        1 => Reg8::C,
        2 => Reg8::D,
        3 => Reg8::E,
        4 => Reg8::H,
        5 => Reg8::L,
        _ => Reg8::A,
    }
}

/// Row `p` of the register-pair table with SP: BC, DE, HL (or its stand-in), SP.
pub open spec fn spec_pair_sp(p: u8, hl: Reg16) -> Reg16 {
    if p == 0 { Reg16::BC } else if p == 1 { Reg16::DE } else if p == 2 { hl } else { Reg16::SP }
}

/// Row `p` of the register-pair table with AF, used by `push` and `pop`.
pub open spec fn spec_pair_af(p: u8, hl: Reg16) -> Reg16 {
    if p == 0 { Reg16::BC } else if p == 1 { Reg16::DE } else if p == 2 { hl } else { Reg16::AF }
}

/// Row `y` of the condition table: NZ, Z, NC, C, PO, PE, P, M.
pub open spec fn spec_condition(y: u8) -> ConditionCode {
    match y {
        0 => ConditionCode::NZ,
        1 => ConditionCode::Z,
        2 => ConditionCode::NC,
        3 => ConditionCode::C,
        4 => ConditionCode::PO,
        5 => ConditionCode::PE,
        6 => ConditionCode::P,
        _ => ConditionCode::M,
    }
}

fn pair_sp(p: u8, hl: Reg16) -> (r: Reg16)
    ensures
        r == spec_pair_sp(p, hl),
{
    match p {
        0 => Reg16::BC,
        1 => Reg16::DE,
        2 => hl,
        _ => Reg16::SP,
    }
}

fn pair_af(p: u8, hl: Reg16) -> (r: Reg16)
    ensures
        r == spec_pair_af(p, hl),
{
    match p {
        0 => Reg16::BC,
        1 => Reg16::DE,
        2 => hl,
        _ => Reg16::AF,
    }
}

fn condition(y: u8) -> (r: ConditionCode)
    ensures
        r == spec_condition(y),
{
    match y {
        0 => ConditionCode::NZ,
        1 => ConditionCode::Z,
        2 => ConditionCode::NC,
        3 => ConditionCode::C,
        4 => ConditionCode::PO,
        5 => ConditionCode::PE,
        6 => ConditionCode::P,
        _ => ConditionCode::M,
    }
}

fn shift_of(y: u8) -> (r: Shift)
    requires
        y < 8,
    ensures
        r == spec_shift_of(y),
{
    match y {
        0 => Shift::Rlc,
        1 => Shift::Rrc,
        2 => Shift::Rl,
        3 => Shift::Rr,
        4 => Shift::Sla,
        5 => Shift::Sra,
        6 => Shift::Sll,
        _ => Shift::Srl,
    }
}

/// The index register that a prefix selects, if any: HL itself, IX or IY.
#[derive(Clone, Copy, Debug, PartialEq, Eq, Structural)]
enum Index {
    Hl,
    Ix,
    Iy,
}

fn index_pair(ix: Index) -> (r: Reg16)
    ensures
        ix == Index::Hl ==> r == Reg16::HL,
        ix == Index::Ix ==> r == Reg16::IX,
        ix == Index::Iy ==> r == Reg16::IY,
{
    match ix {
        Index::Hl => Reg16::HL,
        Index::Ix => Reg16::IX,
        Index::Iy => Reg16::IY,
    }
}

/// Register `i` of the r-table, with H and L standing for the halves of the
/// index register.
fn reg_indexed(i: u8, ix: Index) -> (r: Reg8)
    requires
        i < 8,
        i != 6,
    ensures
        ix == Index::Hl ==> r == spec_reg_of(i),
{
    match (i, ix) {
        (4, Index::Ix) => Reg8::IXH,
        (5, Index::Ix) => Reg8::IXL,
        (4, Index::Iy) => Reg8::IYH,
        (5, Index::Iy) => Reg8::IYL,
        _ => reg_of(i),
    }
}

/// Reads the little-endian word at `pc + 1`.
fn word_at(m: &SmsMemory, pc: u16) -> (r: u16)
    requires
        m@.wf(),
    ensures
        r == m@.read16(pc.wrapping_add(1)),
{
    m.read16(pc.wrapping_add(1))
}

/// Decodes the unprefixed or DD/FD-prefixed instruction whose opcode is at
/// `at`; `ix` tells which prefix was seen, whose byte is not counted here.
#[verifier::rlimit(80)]
fn decode_main(m: &SmsMemory, at: u16, ix: Index) -> (d: Decoded)
    requires
        m@.wf(),
    ensures
        1 <= d.len <= 3,
        4 <= d.cycles <= 23,
        ix == Index::Hl ==> decodes_as_unprefixed(m@, at, d),
        ix == Index::Hl ==> decodes_as_immediates(m@, at, d),
        ix == Index::Hl ==> decodes_as_pairs_and_flow(m@, at, d),
        ix != Index::Hl ==> indexed_rows(
            m@,
            at,
            if ix == Index::Ix { Reg16::IX } else { Reg16::IY },
            Decoded { len: (d.len + 1) as u16, cycles: (d.cycles + 4) as u64, ..d },
        ),
{
    reveal(indexed_rows);
    reveal(decodes_as_unprefixed);
    reveal(decodes_as_immediates);
    reveal(decodes_as_pairs_and_flow);
    let op = m.read(at);
    let x = op / 64;
    let y = (op / 8) % 8;
    let z = op % 8;
    let p = y / 2;
    let q = y % 2;
    proof {
        assert(op < 0x40 ==> (op / 8) % 8 / 2 == op / 16 && (op / 8) % 8 == op / 8) by (bit_vector);
        assert(op >= 0xC0 ==> (op / 8) % 8 / 2 == (op - 0xC0) / 16) by (bit_vector);
        assert(op % 16 == 1 || op % 16 == 5 ==> (op / 8) % 2 == 0) by (bit_vector);
        assert(op % 16 == 9 || op % 16 == 11 ==> (op / 8) % 2 == 1) by (bit_vector);
        assert(op % 16 == 3 ==> (op / 8) % 2 == 0) by (bit_vector);
        assert(op % 8 == (op % 16) % 8) by (bit_vector);
    }
    let hl = index_pair(ix);
    let indexed = ix != Index::Hl;
    let n = m.read(at.wrapping_add(1));
    let nn = word_at(m, at);
    // the operand (HL), or (IX+d) whose displacement follows the opcode
    let mem_op = if indexed {
        Operand8::Shift(hl, n)
    } else {
        Operand8::Ind(Reg16::HL)
    };
    let mem_len: u16 = if indexed { 2 } else { 1 };
    let mem_cost: u64 = if indexed { 8 } else { 0 };
    if x == 0 {
        if z == 0 {
            if y == 0 {
                Decoded { instr: Instr::Nop, len: 1, cycles: 4 }
            } else if y == 1 {
                Decoded { instr: Instr::ExAf, len: 1, cycles: 4 }
            } else if y == 2 {
                Decoded { instr: Instr::Djnz(n), len: 2, cycles: 8 }
            } else if y == 3 {
                Decoded { instr: Instr::Jr(n), len: 2, cycles: 12 }
            } else {
                Decoded { instr: Instr::JrCc(condition(y - 4), n), len: 2, cycles: 7 }
            }
        } else if z == 1 {
            if q == 0 {
                Decoded {
                    instr: Instr::Ld16(Operand16::Reg(pair_sp(p, hl)), Operand16::Imm(nn)),
                    len: 3,
                    cycles: 10,
                }
            } else {
                Decoded { instr: Instr::Add16(hl, pair_sp(p, hl)), len: 1, cycles: 11 }
            }
        } else if z == 2 {
            let instr = match (q, p) {
                (0, 0) => Instr::Ld(Operand8::Ind(Reg16::BC), Operand8::Reg(Reg8::A)),
                (0, 1) => Instr::Ld(Operand8::Ind(Reg16::DE), Operand8::Reg(Reg8::A)),
                (0, 2) => Instr::Ld16(Operand16::Addr(nn), Operand16::Reg(hl)),
                (0, _) => Instr::Ld(Operand8::Addr(nn), Operand8::Reg(Reg8::A)),
                (_, 0) => Instr::Ld(Operand8::Reg(Reg8::A), Operand8::Ind(Reg16::BC)),
                (_, 1) => Instr::Ld(Operand8::Reg(Reg8::A), Operand8::Ind(Reg16::DE)),
                (_, 2) => Instr::Ld16(Operand16::Reg(hl), Operand16::Addr(nn)),
                (_, _) => Instr::Ld(Operand8::Reg(Reg8::A), Operand8::Addr(nn)),
            };
            let (len, cycles): (u16, u64) = match p {
                0 | 1 => (1, 7),
                2 => (3, 16),
                _ => (3, 13),
            };
            Decoded { instr, len, cycles }
        } else if z == 3 {
            if q == 0 {
                Decoded { instr: Instr::Inc16(pair_sp(p, hl)), len: 1, cycles: 6 }
            } else {
                Decoded { instr: Instr::Dec16(pair_sp(p, hl)), len: 1, cycles: 6 }
            }
        } else if z == 4 || z == 5 {
            let (target, len, cycles): (Operand8, u16, u64) = if y == 6 {
                (mem_op, mem_len, 11 + mem_cost)
            } else {
                (Operand8::Reg(reg_indexed(y, ix)), 1, 4)
            };
            if z == 4 {
                Decoded { instr: Instr::Inc(target), len, cycles }
            } else {
                Decoded { instr: Instr::Dec(target), len, cycles }
            }
        } else if z == 6 {
            if y == 6 {
                let v = if indexed { m.read(at.wrapping_add(2)) } else { n };
                Decoded {
                    instr: Instr::Ld(mem_op, Operand8::Imm(v)),
                    len: mem_len + 1,
                    cycles: if indexed { 15 } else { 10 },
                }
            } else {
                Decoded {
                    instr: Instr::Ld(Operand8::Reg(reg_indexed(y, ix)), Operand8::Imm(n)),
                    len: 2,
                    cycles: 7,
                }
            }
        } else {
            let instr = match y {
                0 => Instr::ShiftA(Shift::Rlc),
                1 => Instr::ShiftA(Shift::Rrc),
                2 => Instr::ShiftA(Shift::Rl),
                3 => Instr::ShiftA(Shift::Rr),
                4 => Instr::Daa,
                5 => Instr::Cpl,
                6 => Instr::Scf,
                _ => Instr::Ccf,
            };
            Decoded { instr, len: 1, cycles: 4 }
        }
    } else if x == 1 {
        if y == 6 && z == 6 {
            Decoded { instr: Instr::Halt, len: 1, cycles: 4 }
        } else if y == 6 {
            // with (IX+d), the other operand is the plain register
            Decoded {
                instr: Instr::Ld(mem_op, Operand8::Reg(reg_of(z))),
                len: mem_len,
                cycles: 7 + mem_cost,
            }
        } else if z == 6 {
            Decoded {
                instr: Instr::Ld(Operand8::Reg(reg_of(y)), mem_op),
                len: mem_len,
                cycles: 7 + mem_cost,
            }
        } else {
            Decoded {
                instr: Instr::Ld(Operand8::Reg(reg_indexed(y, ix)), Operand8::Reg(reg_indexed(z, ix))),
                len: 1,
                cycles: 4,
            }
        }
    } else if x == 2 || (x == 3 && z == 6) {
        let (src, len, cycles): (Operand8, u16, u64) = if x == 3 {
            (Operand8::Imm(n), 2, 7)
        } else if z == 6 {
            (mem_op, mem_len, 7 + mem_cost)
        } else {
            (Operand8::Reg(reg_indexed(z, ix)), 1, 4)
        };
        let instr = match y {
            0 => Instr::Add(Reg8::A, src),
            1 => Instr::Adc(Reg8::A, src),
            2 => Instr::Sub(Reg8::A, src),
            3 => Instr::Sbc(Reg8::A, src),
            4 => Instr::Logic(LogicOp::And, src),
            5 => Instr::Logic(LogicOp::Xor, src),
            6 => Instr::Logic(LogicOp::Or, src),
            _ => Instr::Cp(src),
        };
        Decoded { instr, len, cycles }
    } else {
        if z == 0 {
            Decoded { instr: Instr::RetCc(condition(y)), len: 1, cycles: 5 }
        } else if z == 1 {
            if q == 0 {
                Decoded { instr: Instr::Pop(pair_af(p, hl)), len: 1, cycles: 10 }
            } else if p == 0 {
                Decoded { instr: Instr::Ret, len: 1, cycles: 10 }
            } else if p == 1 {
                Decoded { instr: Instr::Exx, len: 1, cycles: 4 }
            } else if p == 2 {
                Decoded { instr: Instr::Jp(Operand16::Reg(hl)), len: 1, cycles: 4 }
            } else {
                Decoded {
                    instr: Instr::Ld16(Operand16::Reg(Reg16::SP), Operand16::Reg(hl)),
                    len: 1,
                    cycles: 6,
                }
            }
        } else if z == 2 {
            Decoded { instr: Instr::JpCc(condition(y), nn), len: 3, cycles: 10 }
        } else if z == 3 {
            if y == 0 {
                Decoded { instr: Instr::Jp(Operand16::Imm(nn)), len: 3, cycles: 10 }
            } else if y == 2 {
                Decoded { instr: Instr::OutImm(n), len: 2, cycles: 11 }
            } else if y == 3 {
                Decoded { instr: Instr::InImm(n), len: 2, cycles: 11 }
            } else if y == 4 {
                Decoded { instr: Instr::Ex(Operand16::Ind(Reg16::SP), hl), len: 1, cycles: 19 }
            } else if y == 5 {
                Decoded { instr: Instr::Ex(Operand16::Reg(Reg16::DE), Reg16::HL), len: 1, cycles: 4 }
            } else if y == 6 {
                Decoded { instr: Instr::Di, len: 1, cycles: 4 }
            } else {
                // y == 7; y == 1 is the CB prefix, decoded elsewhere
                Decoded { instr: Instr::Ei, len: 1, cycles: 4 }
            }
        } else if z == 4 {
            Decoded { instr: Instr::CallCc(condition(y), nn), len: 3, cycles: 10 }
        } else if z == 5 {
            if q == 0 {
                Decoded { instr: Instr::Push(pair_af(p, hl)), len: 1, cycles: 11 }
            } else {
                Decoded { instr: Instr::Call(nn), len: 3, cycles: 17 }
            }
        } else {
            Decoded { instr: Instr::Rst(y as u16 * 8), len: 1, cycles: 11 }
        }
    }
}

/// Decodes a CB-prefixed instruction whose second byte is at `at`.
fn decode_cb(m: &SmsMemory, at: u16) -> (d: Decoded)
    requires
        m@.wf(),
    ensures
        d.len == 2,
        8 <= d.cycles <= 15,
        d.instr == cb_instr(m@.read(at)),
        m@.read(at) % 8 != 6 ==> d.cycles == 8,
{
    let op = m.read(at);
    let x = op / 64;
    let y = (op / 8) % 8;
    let z = op % 8;
    let target = if z == 6 {
        Operand8::Ind(Reg16::HL)
    } else {
        Operand8::Reg(reg_of(z))
    };
    let instr = if x == 0 {
        Instr::Shift(shift_of(y), target)
    } else if x == 1 {
        Instr::Bit(y, target)
    } else {
        Instr::SetRes(y, target, x == 3)
    };
    let cycles: u64 = if z != 6 {
        8
    } else if x == 1 {
        12
    } else {
        15
    };
    Decoded { instr, len: 2, cycles }
}

/// Decodes a DDCB- or FDCB-prefixed instruction: the displacement is at
/// `at`, the operation byte after it. Besides the memory operand, the result
/// of a shift, `set` or `res` is copied to the register the low bits name.
fn decode_index_cb(m: &SmsMemory, at: u16, ix: Index) -> (d: Decoded)
    requires
        m@.wf(),
        ix != Index::Hl,
    ensures
        d.len == 4,
        20 <= d.cycles <= 23,
        m@.read(at.wrapping_add(1)) / 64 == 1 ==> d.cycles == 20 && d.instr == Instr::Bit(
            (m@.read(at.wrapping_add(1)) / 8) % 8,
            Operand8::Shift(if ix == Index::Ix { Reg16::IX } else { Reg16::IY }, m@.read(at)),
        ),
{
    let disp = m.read(at);
    let op = m.read(at.wrapping_add(1));
    let x = op / 64;
    let y = (op / 8) % 8;
    let z = op % 8;
    let target = Operand8::Shift(index_pair(ix), disp);
    let instr = if x == 1 {
        Instr::Bit(y, target)
    } else if z == 6 {
        if x == 0 {
            Instr::Shift(shift_of(y), target)
        } else {
            Instr::SetRes(y, target, x == 3)
        }
    } else {
        let w = reg_of(z);
        if x == 0 {
            Instr::ShiftStore(shift_of(y), target, w)
        } else {
            Instr::SetResStore(y, target, x == 3, w)
        }
    };
    Decoded { instr, len: 4, cycles: if x == 1 { 20 } else { 23 } }
}

/// Decodes an ED-prefixed instruction whose second byte is at `at`.
fn decode_ed(m: &SmsMemory, at: u16) -> (d: Decoded)
    requires
        m@.wf(),
    ensures
        2 <= d.len <= 4,
        8 <= d.cycles <= 20,
        ed_rows(m@, at, d),
{
    reveal(ed_rows);
    let op = m.read(at);
    let x = op / 64;
    let y = (op / 8) % 8;
    let z = op % 8;
    let p = y / 2;
    let q = y % 2;
    if x == 1 {
        if z == 0 {
            let r = if y == 6 { None } else { Some(reg_of(y)) };
            Decoded { instr: Instr::InC(r), len: 2, cycles: 12 }
        } else if z == 1 {
            let r = if y == 6 { None } else { Some(reg_of(y)) };
            Decoded { instr: Instr::OutC(r), len: 2, cycles: 12 }
        } else if z == 2 {
            let rp = pair_sp(p, Reg16::HL);
            if q == 0 {
                Decoded { instr: Instr::Sbc16(rp), len: 2, cycles: 15 }
            } else {
                Decoded { instr: Instr::Adc16(rp), len: 2, cycles: 15 }
            }
        } else if z == 3 {
            let nn = word_at(m, at);
            let rp = pair_sp(p, Reg16::HL);
            let instr = if q == 0 {
                Instr::Ld16(Operand16::Addr(nn), Operand16::Reg(rp))
            } else {
                Instr::Ld16(Operand16::Reg(rp), Operand16::Addr(nn))
            };
            Decoded { instr, len: 4, cycles: 20 }
        } else if z == 4 {
            Decoded { instr: Instr::Neg, len: 2, cycles: 8 }
        } else if z == 5 {
            if y == 1 {
                Decoded { instr: Instr::Reti, len: 2, cycles: 14 }
            } else {
                Decoded { instr: Instr::Retn, len: 2, cycles: 14 }
            }
        } else if z == 6 {
            let mode: u8 = match y % 4 {
                2 => 1,
                3 => 2,
                _ => 0,
            };
            Decoded { instr: Instr::Im(mode), len: 2, cycles: 8 }
        } else {
            let instr = match y {
                0 => Instr::Ld(Operand8::Reg(Reg8::I), Operand8::Reg(Reg8::A)),
                1 => Instr::Ld(Operand8::Reg(Reg8::R), Operand8::Reg(Reg8::A)),
                2 => Instr::LdAIR(Reg8::I),
                3 => Instr::LdAIR(Reg8::R),
                4 => Instr::Rrd,
                5 => Instr::Rld,
                _ => Instr::Nop,
            };
            let cycles: u64 = if y == 4 || y == 5 {
                18
            } else if y < 4 {
                9
            } else {
                8
            };
            Decoded { instr, len: 2, cycles }
        }
    } else if x == 2 && z <= 3 && y >= 4 {
        let instr = match (y, z) {
            (4, 0) => Instr::Ldi,
            (4, 1) => Instr::Cpi,
            (4, 2) => Instr::Block(BlockIo::Ini),
            (4, _) => Instr::Block(BlockIo::Outi),
            (5, 0) => Instr::Ldd,
            (5, 1) => Instr::Cpd,
            (5, 2) => Instr::Block(BlockIo::Ind),
            (5, _) => Instr::Block(BlockIo::Outd),
            (6, 0) => Instr::Ldir,
            (6, 1) => Instr::Cpir,
            (6, 2) => Instr::Block(BlockIo::Inir),
            (6, _) => Instr::Block(BlockIo::Otir),
            (_, 0) => Instr::Lddr,
            (_, 1) => Instr::Cpdr,
            (_, 2) => Instr::Block(BlockIo::Indr),
            (_, _) => Instr::Block(BlockIo::Otdr),
        };
        Decoded { instr, len: 2, cycles: 16 }
    } else {
        Decoded { instr: Instr::Nop, len: 2, cycles: 8 }
    }
}

/// Decodes the instruction at `pc`.
///
/// A DD or FD prefix puts IX or IY in place of HL, its halves in place of H
/// and L, and (IX+d) or (IY+d) in place of (HL); the prefix costs 4 cycles.
/// Instructions whose cost depends on what they find (conditional jumps,
/// calls and returns, `djnz`, repeating block instructions) have their
/// cheaper cost here and charge the difference when they run.
pub fn decode(m: &SmsMemory, pc: u16) -> (d: Decoded)
    requires
        m@.wf(),
    ensures
        1 <= d.len <= 4,
        4 <= d.cycles <= 27,
        decodes_as(m@, pc, d),
{
    reveal(decodes_as_unprefixed);
    reveal(decodes_as_immediates);
    reveal(decodes_as_pairs_and_flow);
    reveal(decodes_as_prefixed);
    let op = m.read(pc);
    let ghost nx = pc.wrapping_add(1);
    let next = pc.wrapping_add(1);
    if op == 0xCB {
        decode_cb(m, next)
    } else if op == 0xED {
        decode_ed(m, next)
    } else if op == 0xDD || op == 0xFD {
        let ix = if op == 0xDD { Index::Ix } else { Index::Iy };
        let op2 = m.read(next);
        if op2 == 0xCB {
            let d = decode_index_cb(m, next.wrapping_add(1), ix);
            Decoded { len: 4, ..d }
        } else if op2 == 0xDD || op2 == 0xED || op2 == 0xFD {
            // a prefix that does not apply acts as a 4-cycle no-op
            Decoded { instr: Instr::Nop, len: 1, cycles: 4 }
        } else {
            let d = decode_main(m, next, ix);
            Decoded { len: d.len + 1, cycles: d.cycles + 4, ..d }
        }
    } else {
        decode_main(m, pc, Index::Hl)
    }
}

/// Flags of `ld a, i` and `ld a, r`: P/V shows IFF2, C is kept.
pub open spec fn ld_air_flags(z: Z80View, v: u8) -> u8 {
    spec_flags(v >= 0x80, v == 0, false, z.iff2, false, z.f() & CF != 0)
}

pub open spec fn jump_relative(z: Z80View, e: u8) -> Z80View {
    z.set16(Reg16::PC, spec_displace(z.pc(), e))
}

/// What a decoded instruction that needs no port does to the CPU and the
/// memory, the program counter having already been moved past it.
#[verifier::opaque]
pub open spec fn exec_spec(z: Z80View, m: MemState, instr: Instr) -> Machine {
    match instr {
        Instr::Nop => (z, m),
        Instr::Halt => (Z80View { halted: true, ..z }, m),
        Instr::Di => (Z80View { iff1: false, iff2: false, ..z }, m),
        Instr::Ei => (Z80View { iff1: true, iff2: true, ..z }, m),
        Instr::Im(mode) => (Z80View { interrupt_mode: mode, ..z }, m),
        Instr::Ld(x, y) => sem_ld(z, m, x, y),
        Instr::Ld16(x, y) => sem_ld16(z, m, x, y),
        Instr::Add(x, y) => sem_arith(z, m, x, y, false, false),
        Instr::Adc(x, y) => sem_arith(z, m, x, y, false, true),
        Instr::Sub(x, y) => sem_arith(z, m, x, y, true, false),
        Instr::Sbc(x, y) => sem_arith(z, m, x, y, true, true),
        Instr::Logic(op, y) => sem_logic(z, m, op, y),
        Instr::Cp(y) => sem_cp(z, m, y),
        Instr::Inc(x) => sem_inc_dec(z, m, x, false),
        Instr::Dec(x) => sem_inc_dec(z, m, x, true),
        Instr::Inc16(r) => (z.set16(r, z.reg16(r).wrapping_add(1)), m),
        Instr::Dec16(r) => (z.set16(r, z.reg16(r).wrapping_sub(1)), m),
        Instr::Add16(x, y) => {
            let (r, f) = crate::alu::add16(z.reg16(x), z.reg16(y), z.f());
            (z.set8(Reg8::F, f).set16(x, r), m)
        },
        Instr::Adc16(y) => {
            let (r, f) = crate::alu::adc16(z.reg16(Reg16::HL), z.reg16(y), z.f() & CF != 0);
            (z.set8(Reg8::F, f).set16(Reg16::HL, r), m)
        },
        Instr::Sbc16(y) => {
            let (r, f) = crate::alu::sbc16(z.reg16(Reg16::HL), z.reg16(y), z.f() & CF != 0);
            (z.set8(Reg8::F, f).set16(Reg16::HL, r), m)
        },
        Instr::Shift(op, x) => sem_shift(z, m, op, x),
        Instr::ShiftStore(op, x, w) => sem_shift_store(z, m, op, x, w),
        Instr::ShiftA(op) => (sem_shift_a(z, op), m),
        Instr::Bit(b, y) => if b < 8 { sem_bit(z, m, b, y) } else { (z, m) },
        Instr::SetRes(b, y, on) => if b < 8 { sem_set_res(z, m, b, y, on) } else { (z, m) },
        Instr::SetResStore(b, y, on, w) => if b < 8 {
            sem_set_res_store(z, m, b, y, on, w)
        } else {
            (z, m)
        },
        Instr::Daa => {
            let (r, f) = crate::alu::daa(z.a(), z.f());
            (set_a_f(z, r, f), m)
        },
        Instr::Cpl => (set_a_f(z, (255 - z.a()) as u8, (z.f() & (SF | ZF | PF | CF)) | HF | NF), m),
        Instr::Neg => {
            let (r, f) = crate::alu::sub8(0, z.a(), false);
            (set_a_f(z, r, f), m)
        },
        Instr::Scf => (z.set8(Reg8::F, (z.f() & (SF | ZF | PF)) | CF), m),
        Instr::Ccf => (
            z.set8(
                Reg8::F,
                (z.f() & (SF | ZF | PF)) | (if z.f() & CF != 0 { HF } else { CF }),
            ),
            m,
        ),
        Instr::Jp(x) => (z.set16(Reg16::PC, x.value(z, m)), m),
        Instr::JpCc(cc, nn) => if cc.spec_check(z.f()) {
            (z.set16(Reg16::PC, nn), m)
        } else {
            (z, m)
        },
        Instr::Jr(e) => (jump_relative(z, e), m),
        Instr::JrCc(cc, e) => if cc.spec_check(z.f()) {
            (jump_relative(z, e).add_cycles(5), m)
        } else {
            (z, m)
        },
        Instr::Djnz(e) => {
            let b = ((z.reg8(Reg8::B) + 255) % 256) as u8;
            let z1 = z.set8(Reg8::B, b);
            if b != 0 {
                (jump_relative(z1, e).add_cycles(5), m)
            } else {
                (z1, m)
            }
        },
        Instr::Call(nn) => sem_call(z, m, nn),
        Instr::CallCc(cc, nn) => if cc.spec_check(z.f()) {
            let (z1, m1) = sem_call(z, m, nn);
            (z1.add_cycles(7), m1)
        } else {
            (z, m)
        },
        Instr::Ret => sem_ret(z, m),
        Instr::RetCc(cc) => if cc.spec_check(z.f()) {
            (sem_ret(z, m).0.add_cycles(6), m)
        } else {
            (z, m)
        },
        Instr::Retn | Instr::Reti => sem_retn(z, m),
        Instr::Rst(a) => sem_call(z, m, a),
        Instr::Push(r) => sem_push_value(z, m, z.reg16(r)),
        Instr::Pop(r) => sem_pop(z, m, r),
        Instr::ExAf => (z.swapped_af(), m),
        Instr::Exx => (z.swapped_main(), m),
        Instr::Ex(x, y) => sem_ex(z, m, x, y),
        Instr::Ldi => sem_ldid(z, m, 1),
        Instr::Ldd => sem_ldid(z, m, 0xFFFF),
        Instr::Ldir | Instr::Lddr => {
            let step: u16 = if instr is Ldir { 1 } else { 0xFFFF };
            let (z1, m1) = sem_ldid(z, m, step);
            if z1.reg16(Reg16::BC) != 0 {
                (repeat(z1).add_cycles(5), m1)
            } else {
                (z1, m1)
            }
        },
        Instr::Cpi => sem_cpid(z, m, 1),
        Instr::Cpd => sem_cpid(z, m, 0xFFFF),
        Instr::Cpir | Instr::Cpdr => {
            let step: u16 = if instr is Cpir { 1 } else { 0xFFFF };
            let z1 = sem_cpid(z, m, step).0;
            if z1.reg16(Reg16::BC) != 0 && z1.f() & ZF == 0 {
                (repeat(z1).add_cycles(5), m)
            } else {
                (z1, m)
            }
        },
        Instr::Rld => sem_rld(z, m, false),
        Instr::Rrd => sem_rld(z, m, true),
        Instr::LdAIR(r) => {
            let v = z.reg8(r);
            (set_a_f(z, v, ld_air_flags(z, v)), m)
        },
        _ => (z, m),
    }
}

/// Loads, arithmetic, logic, shifts and bit operations.
#[verifier::rlimit(40)]
fn execute_data(z: &mut Z80State, m: &mut SmsMemory, instr: Instr)
    requires
        old(m)@.wf(),
        (instr is Ld || instr is Ld16 || instr is Add || instr is Adc || instr is Sub || instr is Sbc || instr is Logic || instr is Cp || instr is Inc || instr is Dec || instr is Inc16 || instr is Dec16 || instr is Add16 || instr is Adc16 || instr is Sbc16 || instr is Shift || instr is ShiftStore || instr is ShiftA || instr is Bit || instr is SetRes || instr is SetResStore),
    ensures
        (final(z)@, final(m)@) == exec_spec(old(z)@, old(m)@, instr),
        final(m)@.wf(),
        final(m).kind() == old(m).kind(),
{
    reveal(exec_spec);
    match instr {
        Instr::Ld(x, y) => ld(z, m, x, y),
        Instr::Ld16(x, y) => ld16(z, m, x, y),
        Instr::Add(x, y) => crate::instructions::add(z, m, x, y),
        Instr::Adc(x, y) => adc(z, m, x, y),
        Instr::Sub(x, y) => crate::instructions::sub(z, m, x, y),
        Instr::Sbc(x, y) => sbc(z, m, x, y),
        Instr::Logic(op, y) => match op {
            LogicOp::And => and(z, m, y),
            LogicOp::Or => or(z, m, y),
            LogicOp::Xor => xor(z, m, y),
        },
        Instr::Cp(y) => cp(z, m, y),
        Instr::Inc(x) => inc(z, m, x),
        Instr::Dec(x) => dec(z, m, x),
        Instr::Inc16(r) => {
            let v = z.reg16(r);
            z.set_reg16(r, v.wrapping_add(1));
        },
        Instr::Dec16(r) => {
            let v = z.reg16(r);
            z.set_reg16(r, v.wrapping_sub(1));
        },
        Instr::Add16(x, y) => add_16(z, x, y),
        Instr::Adc16(y) => adc_sbc_16(z, y, false),
        Instr::Sbc16(y) => adc_sbc_16(z, y, true),
        Instr::Shift(op, x) => shift(z, m, op, x),
        Instr::ShiftStore(op, x, w) => shift_store(z, m, op, x, w),
        Instr::ShiftA(op) => shift_accumulator(z, op),
        Instr::Bit(b, y) => if b < 8 {
            bit(z, m, b, y)
        },
        Instr::SetRes(b, y, on) => if b < 8 {
            set_res(z, m, b, y, on)
        },
        Instr::SetResStore(b, y, on, w) => if b < 8 {
            set_res_store(z, m, b, y, on, w)
        },
        _ => {},
    }
}

/// Jumps, calls, returns and the stack and exchange instructions.
#[verifier::rlimit(40)]
fn execute_flow(z: &mut Z80State, m: &mut SmsMemory, instr: Instr)
    requires
        old(m)@.wf(),
        (instr is Jp || instr is JpCc || instr is Jr || instr is JrCc || instr is Djnz || instr is Call || instr is CallCc || instr is Ret || instr is RetCc || instr is Retn || instr is Reti || instr is Rst || instr is Push || instr is Pop || instr is ExAf || instr is Exx || instr is Ex),
    ensures
        (final(z)@, final(m)@) == exec_spec(old(z)@, old(m)@, instr),
        final(m)@.wf(),
        final(m).kind() == old(m).kind(),
{
    reveal(exec_spec);
    match instr {
        Instr::Jp(x) => jp(z, m, x),
        Instr::JpCc(cc, nn) => if cc.check(z.reg8(Reg8::F)) {
            z.set_reg16(Reg16::PC, nn);
        },
        Instr::Jr(e) => {
            let pc = z.reg16(Reg16::PC);
            z.set_reg16(Reg16::PC, displace(pc, e));
        },
        Instr::JrCc(cc, e) => if cc.check(z.reg8(Reg8::F)) {
            let pc = z.reg16(Reg16::PC);
            z.set_reg16(Reg16::PC, displace(pc, e));
            z.inc_cycles(5);
        },
        Instr::Djnz(e) => {
            let b = ((z.reg8(Reg8::B) as u16 + 255) % 256) as u8;
            z.set_reg8(Reg8::B, b);
            if b != 0 {
                let pc = z.reg16(Reg16::PC);
                z.set_reg16(Reg16::PC, displace(pc, e));
                z.inc_cycles(5);
            }
        },
        Instr::Call(nn) => call(z, m, nn),
        Instr::CallCc(cc, nn) => callcc(z, m, cc, nn),
        Instr::Ret => ret(z, m),
        Instr::RetCc(cc) => retcc(z, m, cc),
        Instr::Retn => retn(z, m),
        Instr::Reti => reti(z, m),
        Instr::Rst(a) => rst(z, m, a),
        Instr::Push(r) => push(z, m, r),
        Instr::Pop(r) => pop(z, m, r),
        Instr::ExAf => z.ex_af(),
        Instr::Exx => z.exx(),
        Instr::Ex(x, y) => ex(z, m, x, y),
        _ => {},
    }
}

/// Everything else that needs no port.
#[verifier::rlimit(40)]
fn execute_misc(z: &mut Z80State, m: &mut SmsMemory, instr: Instr)
    requires
        old(m)@.wf(),
        !instr.spec_is_io() && !(instr is Ld || instr is Ld16 || instr is Add || instr is Adc || instr is Sub || instr is Sbc || instr is Logic || instr is Cp || instr is Inc || instr is Dec || instr is Inc16 || instr is Dec16 || instr is Add16 || instr is Adc16 || instr is Sbc16 || instr is Shift || instr is ShiftStore || instr is ShiftA || instr is Bit || instr is SetRes || instr is SetResStore) && !(instr is Jp || instr is JpCc || instr is Jr || instr is JrCc || instr is Djnz || instr is Call || instr is CallCc || instr is Ret || instr is RetCc || instr is Retn || instr is Reti || instr is Rst || instr is Push || instr is Pop || instr is ExAf || instr is Exx || instr is Ex),
    ensures
        (final(z)@, final(m)@) == exec_spec(old(z)@, old(m)@, instr),
        final(m)@.wf(),
        final(m).kind() == old(m).kind(),
{
    reveal(exec_spec);
    match instr {
        Instr::Nop => {},
        Instr::Halt => z.set_halted(true),
        Instr::Di => {
            z.set_iff1(false);
            z.set_iff2(false);
        },
        Instr::Ei => {
            z.set_iff1(true);
            z.set_iff2(true);
        },
        Instr::Im(mode) => z.set_interrupt_mode(mode),
        Instr::Daa => daa_a(z),
        Instr::Cpl => {
            let a = z.reg8(Reg8::A);
            let f = z.reg8(Reg8::F);
            set_a_and_f(z, 255 - a, (f & (SF | ZF | PF | CF)) | HF | NF);
        },
        Instr::Neg => {
            let (r, f) = crate::alu::alu_sub(0, z.reg8(Reg8::A), false);
            set_a_and_f(z, r, f);
        },
        Instr::Scf => {
            let f = z.reg8(Reg8::F);
            z.set_reg8(Reg8::F, (f & (SF | ZF | PF)) | CF);
        },
        Instr::Ccf => {
            let f = z.reg8(Reg8::F);
            z.set_reg8(Reg8::F, (f & (SF | ZF | PF)) | (if f & CF != 0 { HF } else { CF }));
        },
        Instr::Ldi => ldi(z, m),
        Instr::Ldd => ldd(z, m),
        Instr::Ldir => ldir(z, m),
        Instr::Lddr => lddr(z, m),
        Instr::Cpi => cpi(z, m),
        Instr::Cpd => cpd(z, m),
        Instr::Cpir => cpir(z, m),
        Instr::Cpdr => cpdr(z, m),
        Instr::Rld => rld(z, m),
        Instr::Rrd => rrd(z, m),
        Instr::LdAIR(r) => {
            let v = z.reg8(r);
            let f = crate::alu::flags(
                v >= 0x80,
                v == 0,
                false,
                z.iff2(),
                false,
                z.reg8(Reg8::F) & CF != 0,
            );
            set_a_and_f(z, v, f);
        },

        _ => {},
    }
}

/// Performs a decoded instruction that needs no I/O port.
pub fn execute(z: &mut Z80State, m: &mut SmsMemory, instr: Instr)
    requires
        old(m)@.wf(),
        !instr.spec_is_io(),
    ensures
        (final(z)@, final(m)@) == exec_spec(old(z)@, old(m)@, instr),
        final(m)@.wf(),
        final(m).kind() == old(m).kind(),
{
    match instr {
        Instr::Ld(..) | Instr::Ld16(..) | Instr::Add(..) | Instr::Adc(..) | Instr::Sub(..)
        | Instr::Sbc(..) | Instr::Logic(..) | Instr::Cp(..) | Instr::Inc(..) | Instr::Dec(..)
        | Instr::Inc16(..) | Instr::Dec16(..) | Instr::Add16(..) | Instr::Adc16(..) | Instr::Sbc16(..)
        | Instr::Shift(..) | Instr::ShiftStore(..) | Instr::ShiftA(..) | Instr::Bit(..)
        | Instr::SetRes(..) | Instr::SetResStore(..) => execute_data(z, m, instr),
        Instr::Jp(..) | Instr::JpCc(..) | Instr::Jr(..) | Instr::JrCc(..) | Instr::Djnz(..)
        | Instr::Call(..) | Instr::CallCc(..) | Instr::Ret | Instr::RetCc(..) | Instr::Retn
        | Instr::Reti | Instr::Rst(..) | Instr::Push(..) | Instr::Pop(..) | Instr::ExAf | Instr::Exx
        | Instr::Ex(..) => execute_flow(z, m, instr),
        _ => execute_misc(z, m, instr),
    }
}

/// No instruction winds the cycle counter back.
pub proof fn lemma_exec_cycles(z: Z80View, m: MemState, instr: Instr)
    ensures
        exec_spec(z, m, instr).0.cycles >= z.cycles,
{
    reveal(exec_spec);
    match instr {
        Instr::Nop => {},
        Instr::Halt => {},
        Instr::Di => {},
        Instr::Ei => {},
        Instr::Im(..) => {},
        Instr::Ld(..) => {},
        Instr::Ld16(..) => {},
        Instr::Add(..) => {},
        Instr::Adc(..) => {},
        Instr::Sub(..) => {},
        Instr::Sbc(..) => {},
        Instr::Logic(..) => {},
        Instr::Cp(..) => {},
        Instr::Inc(..) => {},
        Instr::Dec(..) => {},
        Instr::Inc16(..) => {},
        Instr::Dec16(..) => {},
        Instr::Add16(..) => {},
        Instr::Adc16(..) => {},
        Instr::Sbc16(..) => {},
        Instr::Shift(..) => {},
        Instr::ShiftStore(..) => {},
        Instr::ShiftA(..) => {},
        Instr::Bit(..) => {},
        Instr::SetRes(..) => {},
        Instr::SetResStore(..) => {},
        Instr::Daa => {},
        Instr::Cpl => {},
        Instr::Neg => {},
        Instr::Scf => {},
        Instr::Ccf => {},
        Instr::Jp(..) => {},
        Instr::JpCc(..) => {},
        Instr::Jr(..) => {},
        Instr::JrCc(..) => {},
        Instr::Djnz(..) => {},
        Instr::Call(..) => {},
        Instr::CallCc(..) => {},
        Instr::Ret => {},
        Instr::RetCc(..) => {},
        Instr::Retn => {},
        Instr::Reti => {},
        Instr::Rst(..) => {},
        Instr::Push(..) => {},
        Instr::Pop(..) => {},
        Instr::ExAf => {},
        Instr::Exx => {},
        Instr::Ex(..) => {},
        Instr::Ldi => {},
        Instr::Ldd => {},
        Instr::Ldir => {},
        Instr::Lddr => {},
        Instr::Cpi => {},
        Instr::Cpd => {},
        Instr::Cpir => {},
        Instr::Cpdr => {},
        Instr::Rld => {},
        Instr::Rrd => {},
        Instr::LdAIR(..) => {},
        Instr::InImm(..) => {},
        Instr::InC(..) => {},
        Instr::OutImm(..) => {},
        Instr::OutC(..) => {},
        Instr::Block(..) => {},
    }
}

} // verus!
