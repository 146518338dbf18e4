//! The Z80 instructions, one function per mnemonic, each working on any
//! operand shape through `Operand8` and `Operand16`.
//!
//! Every function states its effect on the CPU and memory as a spec
//! function `sem_*` of the state before. Program counter advance and the
//! base cycle cost are the interpreter's business; only the instructions
//! whose cost depends on what they find (taken branches, repeats) charge
//! cycles here.

use vstd::prelude::*;
use crate::alu::{
    add16, adc16, add8, alu_adc16, alu_add, alu_add16, alu_bit, alu_daa, alu_dec, alu_inc,
    alu_logic_flags, alu_sbc16, alu_shift, alu_shift_a, alu_sub, bit_flags, daa, dec8, inc8,
    logic_flags, sbc16, shift8, shift_a, sub8, spec_flags, Shift, CF, HF, NF, PF, SF, ZF,
};
use crate::mapper::{MemState, SmsMemory};
use crate::z80::{ConditionCode, Operand16, Operand8, Reg16, Reg8, Z80State, Z80View};

verus! {

pub type Machine = (Z80View, MemState);

pub open spec fn set_a_f(z: Z80View, r: u8, f: u8) -> Z80View {
    z.set8(Reg8::F, f).set8(Reg8::A, r)
}

/// `add`/`adc`/`sub`/`sbc` into register `x`.
pub open spec fn sem_arith(z: Z80View, m: MemState, x: Reg8, y: Operand8, sub: bool, with_carry: bool) -> Machine {
    let c = with_carry && z.f() & CF != 0;
    let a = z.reg8(x);
    let b = y.value(z, m);
    let (r, f) = if sub { sub8(a, b, c) } else { add8(a, b, c) };
    (z.set8(Reg8::F, f).set8(x, r), m)
}

#[derive(Clone, Copy, Debug, PartialEq, Eq, Structural)]
pub enum LogicOp {
    And,
    Or,
    Xor,
}

pub open spec fn sem_logic(z: Z80View, m: MemState, op: LogicOp, y: Operand8) -> Machine {
    let a = z.a();
    let b = y.value(z, m);
    let r = match op {
        LogicOp::And => a & b,
        LogicOp::Or => a | b,
        LogicOp::Xor => a ^ b,
    };
    (set_a_f(z, r, logic_flags(r, op == LogicOp::And)), m)
}

pub open spec fn sem_cp(z: Z80View, m: MemState, y: Operand8) -> Machine {
    (z.set8(Reg8::F, sub8(z.a(), y.value(z, m), false).1), m)
}

pub open spec fn sem_inc_dec(z: Z80View, m: MemState, x: Operand8, dec: bool) -> Machine {
    let v = x.value(z, m);
    let (r, f) = if dec { dec8(v, z.f()) } else { inc8(v, z.f()) };
    let (z1, m1) = x.store(z, m, r);
    (z1.set8(Reg8::F, f), m1)
}

pub open spec fn sem_shift(z: Z80View, m: MemState, op: Shift, x: Operand8) -> Machine {
    let (r, f) = shift8(op, x.value(z, m), z.f());
    let (z1, m1) = x.store(z, m, r);
    (z1.set8(Reg8::F, f), m1)
}

/// A shift whose result is also copied to register `w`.
pub open spec fn sem_shift_store(z: Z80View, m: MemState, op: Shift, x: Operand8, w: Reg8) -> Machine {
    let (z1, m1) = sem_shift(z, m, op, x);
    (z1.set8(w, shift8(op, x.value(z, m), z.f()).0), m1)
}

pub open spec fn sem_shift_a(z: Z80View, op: Shift) -> Z80View {
    let (r, f) = shift_a(op, z.a(), z.f());
    set_a_f(z, r, f)
}

pub open spec fn sem_bit(z: Z80View, m: MemState, b: u8, y: Operand8) -> Machine {
    (z.set8(Reg8::F, bit_flags(b, y.value(z, m), z.f())), m)
}

/// `set` (when `on`) or `res` of bit `b`.
pub open spec fn sem_set_res(z: Z80View, m: MemState, b: u8, y: Operand8, on: bool) -> Machine {
    let v = y.value(z, m);
    y.store(z, m, if on { v | (1u8 << b) } else { v & !(1u8 << b) })
}

pub open spec fn sem_set_res_store(z: Z80View, m: MemState, b: u8, y: Operand8, on: bool, w: Reg8) -> Machine {
    let v = y.value(z, m);
    let r = if on { v | (1u8 << b) } else { v & !(1u8 << b) };
    let (z1, m1) = y.store(z, m, r);
    (z1.set8(w, r), m1)
}

pub open spec fn sem_ld(z: Z80View, m: MemState, x: Operand8, y: Operand8) -> Machine {
    x.store(z, m, y.value(z, m))
}

pub open spec fn sem_ld16(z: Z80View, m: MemState, x: Operand16, y: Operand16) -> Machine {
    x.store(z, m, y.value(z, m))
}

/// Pushes `v`: high byte at SP - 1, low byte at SP - 2, SP lowered by 2.
pub open spec fn sem_push_value(z: Z80View, m: MemState, v: u16) -> Machine {
    let sp = z.sp();
    (
        z.set16(Reg16::SP, sp.wrapping_sub(2)),
        m.write(sp.wrapping_sub(1), (v / 256) as u8).write(sp.wrapping_sub(2), (v % 256) as u8),
    )
}

pub open spec fn sem_pop(z: Z80View, m: MemState, x: Reg16) -> Machine {
    let sp = z.sp();
    (z.set16(x, m.read16(sp)).set16(Reg16::SP, sp.wrapping_add(2)), m)
}

pub open spec fn sem_call(z: Z80View, m: MemState, target: u16) -> Machine {
    let (z1, m1) = sem_push_value(z, m, z.pc());
    (z1.set16(Reg16::PC, target), m1)
}

pub open spec fn sem_ret(z: Z80View, m: MemState) -> Machine {
    sem_pop(z, m, Reg16::PC)
}

/// `retn` (and `reti`): IFF1 is restored from IFF2, then a return.
pub open spec fn sem_retn(z: Z80View, m: MemState) -> Machine {
    sem_ret(Z80View { iff1: z.iff2, ..z }, m)
}

pub open spec fn sem_ex(z: Z80View, m: MemState, x: Operand16, y: Reg16) -> Machine {
    let v1 = x.value(z, m);
    let v2 = z.reg16(y);
    let (z1, m1) = x.store(z, m, v2);
    (z1.set16(y, v1), m1)
}

pub open spec fn sem_rld(z: Z80View, m: MemState, right: bool) -> Machine {
    let hl = z.reg16(Reg16::HL);
    let v = m.read(hl);
    let a = z.a();
    let (mem_v, a_v) = if right {
        (((a % 16) * 16 + v / 16) as u8, ((a / 16) * 16 + v % 16) as u8)
    } else {
        (((v % 16) * 16 + a % 16) as u8, ((a / 16) * 16 + v / 16) as u8)
    };
    let f = spec_flags(a_v >= 0x80, a_v == 0, false, crate::alu::spec_parity_even(a_v), false, z.f() & CF != 0);
    (set_a_f(z, a_v, f), m.write(hl, mem_v))
}

/// `ldi` (`step` 1) or `ldd` (`step` 0xFFFF).
pub open spec fn sem_ldid(z: Z80View, m: MemState, step: u16) -> Machine {
    let hl = z.reg16(Reg16::HL);
    let de = z.reg16(Reg16::DE);
    let bc = z.reg16(Reg16::BC).wrapping_sub(1);
    let f = (z.f() & (SF | ZF | CF)) | (if bc != 0 { PF } else { 0u8 });
    (
        z.set16(Reg16::HL, hl.wrapping_add(step)).set16(Reg16::DE, de.wrapping_add(step)).set16(
            Reg16::BC,
            bc,
        ).set8(Reg8::F, f),
        m.write(de, m.read(hl)),
    )
}

/// `cpi` (`step` 1) or `cpd` (`step` 0xFFFF).
pub open spec fn sem_cpid(z: Z80View, m: MemState, step: u16) -> Machine {
    let hl = z.reg16(Reg16::HL);
    let bc = z.reg16(Reg16::BC).wrapping_sub(1);
    let sf = sub8(z.a(), m.read(hl), false).1;
    let f = (sf & (SF | ZF | HF | NF)) | (if bc != 0 { PF } else { 0u8 }) | (z.f() & CF);
    (z.set16(Reg16::HL, hl.wrapping_add(step)).set16(Reg16::BC, bc).set8(Reg8::F, f), m)
}

/// Moves the program counter back over a two-byte instruction so that it
/// runs again.
pub open spec fn repeat(z: Z80View) -> Z80View {
    z.set16(Reg16::PC, z.pc().wrapping_sub(2))
}

pub fn set_a_and_f(z: &mut Z80State, r: u8, f: u8)
    ensures
        final(z)@ == set_a_f(old(z)@, r, f),
{
    z.set_reg8(Reg8::F, f);
    z.set_reg8(Reg8::A, r);
}

pub fn adc(z: &mut Z80State, m: &SmsMemory, x: Reg8, y: Operand8)
    requires
        m@.wf(),
    ensures
        (final(z)@, m@) == sem_arith(old(z)@, m@, x, y, false, true),
{
    let c = z.reg8(Reg8::F) & CF != 0;
    let a = z.reg8(x);
    let b = y.view(z, m);
    let (r, f) = alu_add(a, b, c);
    z.set_reg8(Reg8::F, f);
    z.set_reg8(x, r);
}

pub fn add(z: &mut Z80State, m: &SmsMemory, x: Reg8, y: Operand8)
    requires
        m@.wf(),
    ensures
        (final(z)@, m@) == sem_arith(old(z)@, m@, x, y, false, false),
{
    let a = z.reg8(x);
    let b = y.view(z, m);
    let (r, f) = alu_add(a, b, false);
    z.set_reg8(Reg8::F, f);
    z.set_reg8(x, r);
}

pub fn sbc(z: &mut Z80State, m: &SmsMemory, x: Reg8, y: Operand8)
    requires
        m@.wf(),
    ensures
        (final(z)@, m@) == sem_arith(old(z)@, m@, x, y, true, true),
{
    let c = z.reg8(Reg8::F) & CF != 0;
    let a = z.reg8(x);
    let b = y.view(z, m);
    let (r, f) = alu_sub(a, b, c);
    z.set_reg8(Reg8::F, f);
    z.set_reg8(x, r);
}

pub fn sub(z: &mut Z80State, m: &SmsMemory, x: Reg8, y: Operand8)
    requires
        m@.wf(),
    ensures
        (final(z)@, m@) == sem_arith(old(z)@, m@, x, y, true, false),
{
    let a = z.reg8(x);
    let b = y.view(z, m);
    let (r, f) = alu_sub(a, b, false);
    z.set_reg8(Reg8::F, f);
    z.set_reg8(x, r);
}

fn logic(z: &mut Z80State, m: &SmsMemory, op: LogicOp, y: Operand8)
    requires
        m@.wf(),
    ensures
        (final(z)@, m@) == sem_logic(old(z)@, m@, op, y),
{
    let a = z.reg8(Reg8::A);
    let b = y.view(z, m);
    let r = match op {
        LogicOp::And => a & b,
        LogicOp::Or => a | b,
        LogicOp::Xor => a ^ b,
    };
    let f = alu_logic_flags(r, op == LogicOp::And);
    set_a_and_f(z, r, f);
}

pub fn and(z: &mut Z80State, m: &SmsMemory, y: Operand8)
    requires
        m@.wf(),
    ensures
        (final(z)@, m@) == sem_logic(old(z)@, m@, LogicOp::And, y),
{
    logic(z, m, LogicOp::And, y)
}

pub fn or(z: &mut Z80State, m: &SmsMemory, y: Operand8)
    requires
        m@.wf(),
    ensures
        (final(z)@, m@) == sem_logic(old(z)@, m@, LogicOp::Or, y),
{
    logic(z, m, LogicOp::Or, y)
}

pub fn xor(z: &mut Z80State, m: &SmsMemory, y: Operand8)
    requires
        m@.wf(),
    ensures
        (final(z)@, m@) == sem_logic(old(z)@, m@, LogicOp::Xor, y),
{
    logic(z, m, LogicOp::Xor, y)
}

pub fn cp(z: &mut Z80State, m: &SmsMemory, y: Operand8)
    requires
        m@.wf(),
    ensures
        (final(z)@, m@) == sem_cp(old(z)@, m@, y),
{
    let a = z.reg8(Reg8::A);
    let b = y.view(z, m);
    let (_, f) = alu_sub(a, b, false);
    z.set_reg8(Reg8::F, f);
}

pub fn inc(z: &mut Z80State, m: &mut SmsMemory, x: Operand8)
    requires
        old(m)@.wf(),
    ensures
        (final(z)@, final(m)@) == sem_inc_dec(old(z)@, old(m)@, x, false),
        final(m)@.wf(),
        final(m).kind() == old(m).kind(),
{
    let v = x.view(z, m);
    let (r, f) = alu_inc(v, z.reg8(Reg8::F));
    x.change(z, m, r);
    z.set_reg8(Reg8::F, f);
}

pub fn dec(z: &mut Z80State, m: &mut SmsMemory, x: Operand8)
    requires
        old(m)@.wf(),
    ensures
        (final(z)@, final(m)@) == sem_inc_dec(old(z)@, old(m)@, x, true),
        final(m)@.wf(),
        final(m).kind() == old(m).kind(),
{
    let v = x.view(z, m);
    let (r, f) = alu_dec(v, z.reg8(Reg8::F));
    x.change(z, m, r);
    z.set_reg8(Reg8::F, f);
}

/// The rotations and shifts `rlc`, `rrc`, `rl`, `rr`, `sla`, `sra`, `sll`
/// and `srl` of any operand.
pub fn shift(z: &mut Z80State, m: &mut SmsMemory, op: Shift, x: Operand8)
    requires
        old(m)@.wf(),
    ensures
        (final(z)@, final(m)@) == sem_shift(old(z)@, old(m)@, op, x),
        final(m)@.wf(),
        final(m).kind() == old(m).kind(),
{
    let v = x.view(z, m);
    let (r, f) = alu_shift(op, v, z.reg8(Reg8::F));
    x.change(z, m, r);
    z.set_reg8(Reg8::F, f);
}

/// A rotation or shift of a memory operand whose result is also copied to
/// register `w`.
pub fn shift_store(z: &mut Z80State, m: &mut SmsMemory, op: Shift, x: Operand8, w: Reg8)
    requires
        old(m)@.wf(),
    ensures
        (final(z)@, final(m)@) == sem_shift_store(old(z)@, old(m)@, op, x, w),
        final(m)@.wf(),
        final(m).kind() == old(m).kind(),
{
    let v = x.view(z, m);
    let (r, f) = alu_shift(op, v, z.reg8(Reg8::F));
    x.change(z, m, r);
    z.set_reg8(Reg8::F, f);
    z.set_reg8(w, r);
}

/// `rlca`, `rrca`, `rla` and `rra`.
pub fn shift_accumulator(z: &mut Z80State, op: Shift)
    ensures
        final(z)@ == sem_shift_a(old(z)@, op),
{
    let (r, f) = alu_shift_a(op, z.reg8(Reg8::A), z.reg8(Reg8::F));
    set_a_and_f(z, r, f);
}

pub fn bit(z: &mut Z80State, m: &SmsMemory, b: u8, y: Operand8)
    requires
        m@.wf(),
        b < 8,
    ensures
        (final(z)@, m@) == sem_bit(old(z)@, m@, b, y),
{
    let v = y.view(z, m);
    let f = alu_bit(b, v, z.reg8(Reg8::F));
    z.set_reg8(Reg8::F, f);
}

/// `set` (when `on`) or `res` of bit `b` of `y`.
pub fn set_res(z: &mut Z80State, m: &mut SmsMemory, b: u8, y: Operand8, on: bool)
    requires
        old(m)@.wf(),
        b < 8,
    ensures
        (final(z)@, final(m)@) == sem_set_res(old(z)@, old(m)@, b, y, on),
        final(m)@.wf(),
        final(m).kind() == old(m).kind(),
{
    let v = y.view(z, m);
    let r = if on { v | (1u8 << b) } else { v & !(1u8 << b) };
    y.change(z, m, r);
}

/// `set` or `res` of a memory operand, the result also copied to `w`.
pub fn set_res_store(z: &mut Z80State, m: &mut SmsMemory, b: u8, y: Operand8, on: bool, w: Reg8)
    requires
        old(m)@.wf(),
        b < 8,
    ensures
        (final(z)@, final(m)@) == sem_set_res_store(old(z)@, old(m)@, b, y, on, w),
        final(m)@.wf(),
        final(m).kind() == old(m).kind(),
{
    let v = y.view(z, m);
    let r = if on { v | (1u8 << b) } else { v & !(1u8 << b) };
    y.change(z, m, r);
    z.set_reg8(w, r);
}

pub fn ld(z: &mut Z80State, m: &mut SmsMemory, x: Operand8, y: Operand8)
    requires
        old(m)@.wf(),
    ensures
        (final(z)@, final(m)@) == sem_ld(old(z)@, old(m)@, x, y),
        final(m)@.wf(),
        final(m).kind() == old(m).kind(),
{
    let v = y.view(z, m);
    x.change(z, m, v);
}

pub fn ld16(z: &mut Z80State, m: &mut SmsMemory, x: Operand16, y: Operand16)
    requires
        old(m)@.wf(),
    ensures
        (final(z)@, final(m)@) == sem_ld16(old(z)@, old(m)@, x, y),
        final(m)@.wf(),
        final(m).kind() == old(m).kind(),
{
    let v = y.view(z, m);
    x.change(z, m, v);
}

pub fn push_value(z: &mut Z80State, m: &mut SmsMemory, v: u16)
    requires
        old(m)@.wf(),
    ensures
        (final(z)@, final(m)@) == sem_push_value(old(z)@, old(m)@, v),
        final(m)@.wf(),
        final(m).kind() == old(m).kind(),
{
    let sp = z.reg16(Reg16::SP);
    m.write(sp.wrapping_sub(1), (v / 256) as u8);
    m.write(sp.wrapping_sub(2), (v % 256) as u8);
    z.set_reg16(Reg16::SP, sp.wrapping_sub(2));
}

pub fn push(z: &mut Z80State, m: &mut SmsMemory, x: Reg16)
    requires
        old(m)@.wf(),
    ensures
        (final(z)@, final(m)@) == sem_push_value(old(z)@, old(m)@, old(z)@.reg16(x)),
        final(m)@.wf(),
        final(m).kind() == old(m).kind(),
{
    let v = z.reg16(x);
    push_value(z, m, v);
}

pub fn pop(z: &mut Z80State, m: &SmsMemory, x: Reg16)
    requires
        m@.wf(),
    ensures
        (final(z)@, m@) == sem_pop(old(z)@, m@, x),
{
    let sp = z.reg16(Reg16::SP);
    let v = m.read16(sp);
    z.set_reg16(x, v);
    z.set_reg16(Reg16::SP, sp.wrapping_add(2));
}

pub fn call(z: &mut Z80State, m: &mut SmsMemory, x: u16)
    requires
        old(m)@.wf(),
    ensures
        (final(z)@, final(m)@) == sem_call(old(z)@, old(m)@, x),
        final(m)@.wf(),
        final(m).kind() == old(m).kind(),
{
    let pc = z.reg16(Reg16::PC);
    push_value(z, m, pc);
    z.set_reg16(Reg16::PC, x);
}

/// `call cc, nn`: 7 cycles more than its base cost of 10 when taken.
pub fn callcc(z: &mut Z80State, m: &mut SmsMemory, cc: ConditionCode, x: u16)
    requires
        old(m)@.wf(),
    ensures
        cc.spec_check(old(z)@.f()) ==> (final(z)@, final(m)@) == ({
            let (z1, m1) = sem_call(old(z)@, old(m)@, x);
            (z1.add_cycles(7), m1)
        }),
        !cc.spec_check(old(z)@.f()) ==> final(z)@ == old(z)@ && final(m)@ == old(m)@,
        final(m)@.wf(),
        final(m).kind() == old(m).kind(),
{
    if cc.check(z.reg8(Reg8::F)) {
        call(z, m, x);
        z.inc_cycles(7);
    }
}

/// `rst n`: a call to a fixed address.
pub fn rst(z: &mut Z80State, m: &mut SmsMemory, x: u16)
    requires
        old(m)@.wf(),
    ensures
        (final(z)@, final(m)@) == sem_call(old(z)@, old(m)@, x),
        final(m)@.wf(),
        final(m).kind() == old(m).kind(),
{
    call(z, m, x)
}

pub fn ret(z: &mut Z80State, m: &SmsMemory)
    requires
        m@.wf(),
    ensures
        (final(z)@, m@) == sem_ret(old(z)@, m@),
{
    pop(z, m, Reg16::PC)
}

/// `ret cc`: 6 cycles more than its base cost of 5 when taken.
pub fn retcc(z: &mut Z80State, m: &SmsMemory, cc: ConditionCode)
    requires
        m@.wf(),
    ensures
        cc.spec_check(old(z)@.f()) ==> final(z)@ == sem_ret(old(z)@, m@).0.add_cycles(6),
        !cc.spec_check(old(z)@.f()) ==> final(z)@ == old(z)@,
{
    if cc.check(z.reg8(Reg8::F)) {
        ret(z, m);
        z.inc_cycles(6);
    }
}

pub fn retn(z: &mut Z80State, m: &SmsMemory)
    requires
        m@.wf(),
    ensures
        (final(z)@, m@) == sem_retn(old(z)@, m@),
{
    let iff2 = z.iff2();
    z.set_iff1(iff2);
    ret(z, m);
}

/// `reti` behaves as `retn` here: IFF1 is restored from IFF2.
pub fn reti(z: &mut Z80State, m: &SmsMemory)
    requires
        m@.wf(),
    ensures
        (final(z)@, m@) == sem_retn(old(z)@, m@),
{
    retn(z, m)
}

pub fn jp(z: &mut Z80State, m: &SmsMemory, x: Operand16)
    requires
        m@.wf(),
    ensures
        final(z)@ == old(z)@.set16(Reg16::PC, x.value(old(z)@, m@)),
{
    let addr = x.view(z, m);
    z.set_reg16(Reg16::PC, addr);
}

pub fn ex(z: &mut Z80State, m: &mut SmsMemory, x: Operand16, y: Reg16)
    requires
        old(m)@.wf(),
    ensures
        (final(z)@, final(m)@) == sem_ex(old(z)@, old(m)@, x, y),
        final(m)@.wf(),
        final(m).kind() == old(m).kind(),
{
    let v1 = x.view(z, m);
    let v2 = z.reg16(y);
    x.change(z, m, v2);
    z.set_reg16(y, v1);
}

fn rotate_digit(z: &mut Z80State, m: &mut SmsMemory, right: bool)
    requires
        old(m)@.wf(),
    ensures
        (final(z)@, final(m)@) == sem_rld(old(z)@, old(m)@, right),
        final(m)@.wf(),
        final(m).kind() == old(m).kind(),
{
    let hl = z.reg16(Reg16::HL);
    let v = m.read(hl);
    let a = z.reg8(Reg8::A);
    let (mem_v, a_v) = if right {
        (((a % 16) * 16 + v / 16) as u8, ((a / 16) * 16 + v % 16) as u8)
    } else {
        (((v % 16) * 16 + a % 16) as u8, ((a / 16) * 16 + v / 16) as u8)
    };
    let f = crate::alu::flags(
        a_v >= 0x80,
        a_v == 0,
        false,
        crate::alu::parity_even(a_v),
        false,
        z.reg8(Reg8::F) & CF != 0,
    );
    m.write(hl, mem_v);
    set_a_and_f(z, a_v, f);
}

/// `rld`: the low digit of (HL) moves up, its high digit into A's low digit.
pub fn rld(z: &mut Z80State, m: &mut SmsMemory)
    requires
        old(m)@.wf(),
    ensures
        (final(z)@, final(m)@) == sem_rld(old(z)@, old(m)@, false),
        final(m)@.wf(),
        final(m).kind() == old(m).kind(),
{
    rotate_digit(z, m, false)
}

/// `rrd`: the digits move the other way.
pub fn rrd(z: &mut Z80State, m: &mut SmsMemory)
    requires
        old(m)@.wf(),
    ensures
        (final(z)@, final(m)@) == sem_rld(old(z)@, old(m)@, true),
        final(m)@.wf(),
        final(m).kind() == old(m).kind(),
{
    rotate_digit(z, m, true)
}

fn ldid(z: &mut Z80State, m: &mut SmsMemory, step: u16)
    requires
        old(m)@.wf(),
    ensures
        (final(z)@, final(m)@) == sem_ldid(old(z)@, old(m)@, step),
        final(m)@.wf(),
        final(m).kind() == old(m).kind(),
{
    let hl = z.reg16(Reg16::HL);
    let de = z.reg16(Reg16::DE);
    let bc = z.reg16(Reg16::BC).wrapping_sub(1);
    let v = m.read(hl);
    m.write(de, v);
    let f = (z.reg8(Reg8::F) & (SF | ZF | CF)) | (if bc != 0 { PF } else { 0u8 });
    z.set_reg16(Reg16::HL, hl.wrapping_add(step));
    z.set_reg16(Reg16::DE, de.wrapping_add(step));
    z.set_reg16(Reg16::BC, bc);
    z.set_reg8(Reg8::F, f);
}

fn cpid(z: &mut Z80State, m: &SmsMemory, step: u16)
    requires
        m@.wf(),
    ensures
        (final(z)@, m@) == sem_cpid(old(z)@, m@, step),
{
    let hl = z.reg16(Reg16::HL);
    let bc = z.reg16(Reg16::BC).wrapping_sub(1);
    let (_, sf) = alu_sub(z.reg8(Reg8::A), m.read(hl), false);
    let f = (sf & (SF | ZF | HF | NF)) | (if bc != 0 { PF } else { 0u8 }) | (z.reg8(Reg8::F) & CF);
    z.set_reg16(Reg16::HL, hl.wrapping_add(step));
    z.set_reg16(Reg16::BC, bc);
    z.set_reg8(Reg8::F, f);
}

pub fn ldi(z: &mut Z80State, m: &mut SmsMemory)
    requires
        old(m)@.wf(),
    ensures
        (final(z)@, final(m)@) == sem_ldid(old(z)@, old(m)@, 1),
        final(m)@.wf(),
        final(m).kind() == old(m).kind(),
{
    ldid(z, m, 1)
}

pub fn ldd(z: &mut Z80State, m: &mut SmsMemory)
    requires
        old(m)@.wf(),
    ensures
        (final(z)@, final(m)@) == sem_ldid(old(z)@, old(m)@, 0xFFFF),
        final(m)@.wf(),
        final(m).kind() == old(m).kind(),
{
    ldid(z, m, 0xFFFF)
}

pub fn cpi(z: &mut Z80State, m: &SmsMemory)
    requires
        m@.wf(),
    ensures
        (final(z)@, m@) == sem_cpid(old(z)@, m@, 1),
{
    cpid(z, m, 1)
}

pub fn cpd(z: &mut Z80State, m: &SmsMemory)
    requires
        m@.wf(),
    ensures
        (final(z)@, m@) == sem_cpid(old(z)@, m@, 0xFFFF),
{
    cpid(z, m, 0xFFFF)
}

/// The repeating block moves `ldir` (`step` 1) and `lddr` (`step` 0xFFFF):
/// one byte per run; while BC is not yet zero the instruction runs again,
/// and such a run costs 5 cycles more than the base cost of 16.
pub fn ld_repeat(z: &mut Z80State, m: &mut SmsMemory, step: u16)
    requires
        old(m)@.wf(),
    ensures
        ({
            let (z1, m1) = sem_ldid(old(z)@, old(m)@, step);
            &&& final(m)@ == m1
            &&& z1.reg16(Reg16::BC) != 0 ==> final(z)@ == repeat(z1).add_cycles(5)
            &&& z1.reg16(Reg16::BC) == 0 ==> final(z)@ == z1
        }),
        final(m)@.wf(),
        final(m).kind() == old(m).kind(),
{
    ldid(z, m, step);
    if z.reg16(Reg16::BC) != 0 {
        let pc = z.reg16(Reg16::PC);
        z.set_reg16(Reg16::PC, pc.wrapping_sub(2));
        z.inc_cycles(5);
    }
}

/// `ldir`.
pub fn ldir(z: &mut Z80State, m: &mut SmsMemory)
    requires
        old(m)@.wf(),
    ensures
        ({
            let (z1, m1) = sem_ldid(old(z)@, old(m)@, 1);
            &&& final(m)@ == m1
            &&& z1.reg16(Reg16::BC) != 0 ==> final(z)@ == repeat(z1).add_cycles(5)
            &&& z1.reg16(Reg16::BC) == 0 ==> final(z)@ == z1
        }),
        final(m)@.wf(),
        final(m).kind() == old(m).kind(),
{
    ld_repeat(z, m, 1)
}

/// `lddr`.
pub fn lddr(z: &mut Z80State, m: &mut SmsMemory)
    requires
        old(m)@.wf(),
    ensures
        ({
            let (z1, m1) = sem_ldid(old(z)@, old(m)@, 0xFFFF);
            &&& final(m)@ == m1
            &&& z1.reg16(Reg16::BC) != 0 ==> final(z)@ == repeat(z1).add_cycles(5)
            &&& z1.reg16(Reg16::BC) == 0 ==> final(z)@ == z1
        }),
        final(m)@.wf(),
        final(m).kind() == old(m).kind(),
{
    ld_repeat(z, m, 0xFFFF)
}

/// The repeating compares `cpir` (`step` 1) and `cpdr` (`step` 0xFFFF):
/// they run again while BC is not zero and no match was found, and such a
/// run costs 5 cycles more than the base cost of 16.
pub fn cp_repeat(z: &mut Z80State, m: &SmsMemory, step: u16)
    requires
        m@.wf(),
    ensures
        ({
            let z1 = sem_cpid(old(z)@, m@, step).0;
            let again = z1.reg16(Reg16::BC) != 0 && z1.f() & ZF == 0;
            &&& again ==> final(z)@ == repeat(z1).add_cycles(5)
            &&& !again ==> final(z)@ == z1
        }),
{
    cpid(z, m, step);
    if z.reg16(Reg16::BC) != 0 && z.reg8(Reg8::F) & ZF == 0 {
        let pc = z.reg16(Reg16::PC);
        z.set_reg16(Reg16::PC, pc.wrapping_sub(2));
        z.inc_cycles(5);
    }
}

pub fn cpir(z: &mut Z80State, m: &SmsMemory)
    requires
        m@.wf(),
    ensures
        ({
            let z1 = sem_cpid(old(z)@, m@, 1).0;
            let again = z1.reg16(Reg16::BC) != 0 && z1.f() & ZF == 0;
            &&& again ==> final(z)@ == repeat(z1).add_cycles(5)
            &&& !again ==> final(z)@ == z1
        }),
{
    cp_repeat(z, m, 1)
}

pub fn cpdr(z: &mut Z80State, m: &SmsMemory)
    requires
        m@.wf(),
    ensures
        ({
            let z1 = sem_cpid(old(z)@, m@, 0xFFFF).0;
            let again = z1.reg16(Reg16::BC) != 0 && z1.f() & ZF == 0;
            &&& again ==> final(z)@ == repeat(z1).add_cycles(5)
            &&& !again ==> final(z)@ == z1
        }),
{
    cp_repeat(z, m, 0xFFFF)
}

pub fn daa_a(z: &mut Z80State)
    ensures
        final(z)@ == ({
            let (r, f) = daa(old(z)@.a(), old(z)@.f());
            set_a_f(old(z)@, r, f)
        }),
{
    let (r, f) = alu_daa(z.reg8(Reg8::A), z.reg8(Reg8::F));
    set_a_and_f(z, r, f);
}

/// `add hl, rr` and `add ix, rr`, `add iy, rr`.
pub fn add_16(z: &mut Z80State, x: Reg16, y: Reg16)
    ensures
        final(z)@ == ({
            let (r, f) = add16(old(z)@.reg16(x), old(z)@.reg16(y), old(z)@.f());
            old(z)@.set8(Reg8::F, f).set16(x, r)
        }),
{
    let (r, f) = alu_add16(z.reg16(x), z.reg16(y), z.reg8(Reg8::F));
    z.set_reg8(Reg8::F, f);
    z.set_reg16(x, r);
}

/// `adc hl, rr` (when `sub` is false) or `sbc hl, rr`.
pub fn adc_sbc_16(z: &mut Z80State, y: Reg16, sub: bool)
    ensures
        final(z)@ == ({
            let c = old(z)@.f() & CF != 0;
            let hl = old(z)@.reg16(Reg16::HL);
            let v = old(z)@.reg16(y);
            let (r, f) = if sub { sbc16(hl, v, c) } else { adc16(hl, v, c) };
            old(z)@.set8(Reg8::F, f).set16(Reg16::HL, r)
        }),
{
    let c = z.reg8(Reg8::F) & CF != 0;
    let hl = z.reg16(Reg16::HL);
    let v = z.reg16(y);
    let (r, f) = if sub { alu_sbc16(hl, v, c) } else { alu_adc16(hl, v, c) };
    z.set_reg8(Reg8::F, f);
    z.set_reg16(Reg16::HL, r);
}

} // verus!
