//! The Z80 register file and the operands that instructions read and write.

use vstd::prelude::*;
use crate::mapper::{MemState, SmsMemory};

verus! {

/// The 8-bit registers. The 16-bit registers are pairs of these, high byte
/// first: AF, BC, DE, HL, IX, IY, SP, PC.
#[derive(Clone, Copy, Debug, PartialEq, Eq, Structural)]
pub enum Reg8 {
    A,
    F,
    B,
    C,
    D,
    E,
    H,
    L,
    IXH,
    IXL,
    IYH,
    IYL,
    SPH,
    SPL,
    PCH,
    PCL,
    I,
    R,
}

#[derive(Clone, Copy, Debug, PartialEq, Eq, Structural)]
pub enum Reg16 {
    AF,
    BC,
    DE,
    HL,
    IX,
    IY,
    SP,
    PC,
}

impl Reg8 {
    pub open spec fn spec_index(self) -> usize {
        match self {
            Reg8::A => 0,
            Reg8::F => 1,
            Reg8::B => 2,
            Reg8::C => 3,
            Reg8::D => 4,
            Reg8::E => 5,
            Reg8::H => 6,
            Reg8::L => 7,
            Reg8::IXH => 8,
            Reg8::IXL => 9,
            Reg8::IYH => 10,
            Reg8::IYL => 11,
            Reg8::SPH => 12,
            Reg8::SPL => 13,
            Reg8::PCH => 14,
            Reg8::PCL => 15,
            Reg8::I => 16,
            Reg8::R => 17,
        }
    }

    /// Position of the register in the register file.
    #[verifier::when_used_as_spec(spec_index)]
    pub fn index(self) -> (r: usize)
        ensures
            r == self.spec_index(),
            r < 18,
    {
        match self {
            Reg8::A => 0,
            Reg8::F => 1,
            Reg8::B => 2,
            Reg8::C => 3,
            Reg8::D => 4,
            Reg8::E => 5,
            Reg8::H => 6,
            Reg8::L => 7,
            Reg8::IXH => 8,
            Reg8::IXL => 9,
            Reg8::IYH => 10,
            Reg8::IYL => 11,
            Reg8::SPH => 12,
            Reg8::SPL => 13,
            Reg8::PCH => 14,
            Reg8::PCL => 15,
            Reg8::I => 16,
            Reg8::R => 17,
        }
    }
}

impl Reg16 {
    pub open spec fn spec_high_index(self) -> usize {
        match self {
            Reg16::AF => 0,
            Reg16::BC => 2,
            Reg16::DE => 4,
            Reg16::HL => 6,
            Reg16::IX => 8,
            Reg16::IY => 10,
            Reg16::SP => 12,
            Reg16::PC => 14,
        }
    }

    /// Position of the high byte in the register file; the low byte follows.
    #[verifier::when_used_as_spec(spec_high_index)]
    pub fn high_index(self) -> (r: usize)
        ensures
            r == self.spec_high_index(),
            r < 16,
            r % 2 == 0,
    {
        match self {
            Reg16::AF => 0,
            Reg16::BC => 2,
            Reg16::DE => 4,
            Reg16::HL => 6,
            Reg16::IX => 8,
            Reg16::IY => 10,
            Reg16::SP => 12,
            Reg16::PC => 14,
        }
    }
}

/// The condition codes of conditional jumps, calls and returns.
#[derive(Clone, Copy, Debug, PartialEq, Eq, Structural)]
pub enum ConditionCode {
    NZ,
    Z,
    NC,
    C,
    PO,
    PE,
    P,
    M,
}

impl ConditionCode {
    /// Whether the condition holds for flag byte `f`.
    pub open spec fn spec_check(self, f: u8) -> bool {
        match self {
            ConditionCode::NZ => f & 0x40 == 0,
            ConditionCode::Z => f & 0x40 != 0,
            ConditionCode::NC => f & 0x01 == 0,
            ConditionCode::C => f & 0x01 != 0,
            ConditionCode::PO => f & 0x04 == 0,
            ConditionCode::PE => f & 0x04 != 0,
            ConditionCode::P => f & 0x80 == 0,
            ConditionCode::M => f & 0x80 != 0,
        }
    }

    #[verifier::when_used_as_spec(spec_check)]
    pub fn check(self, f: u8) -> (r: bool)
        ensures
            r == self.spec_check(f),
    {
        match self {
            ConditionCode::NZ => f & 0x40 == 0,
            ConditionCode::Z => f & 0x40 != 0,
            ConditionCode::NC => f & 0x01 == 0,
            ConditionCode::C => f & 0x01 != 0,
            ConditionCode::PO => f & 0x04 == 0,
            ConditionCode::PE => f & 0x04 != 0,
            ConditionCode::P => f & 0x80 == 0,
            ConditionCode::M => f & 0x80 != 0,
        }
    }
}

/// The abstract state of the CPU.
pub struct Z80View {
    /// The register file, indexed as `Reg8::index` says.
    pub regs: Seq<u8>,
    /// The alternate AF, BC, DE and HL, high byte first.
    pub shadow: Seq<u8>,
    pub iff1: bool,
    pub iff2: bool,
    pub interrupt_mode: u8,
    pub cycles: u64,
    pub halted: bool,
}

impl Z80View {
    pub open spec fn wf(self) -> bool {
        self.regs.len() == 18 && self.shadow.len() == 8
    }

    pub open spec fn reg8(self, r: Reg8) -> u8 {
        self.regs[r.spec_index() as int]
    }

    pub open spec fn reg16(self, r: Reg16) -> u16 {
        let i = r.spec_high_index() as int;
        (self.regs[i] as int * 256 + self.regs[i + 1] as int) as u16
    }

    pub open spec fn set8(self, r: Reg8, v: u8) -> Z80View {
        Z80View { regs: self.regs.update(r.spec_index() as int, v), ..self }
    }

    pub open spec fn set16(self, r: Reg16, v: u16) -> Z80View {
        let i = r.spec_high_index() as int;
        Z80View { regs: self.regs.update(i, (v / 256) as u8).update(i + 1, (v % 256) as u8), ..self }
    }

    pub open spec fn a(self) -> u8 {
        self.reg8(Reg8::A)
    }

    pub open spec fn f(self) -> u8 {
        self.reg8(Reg8::F)
    }

    pub open spec fn pc(self) -> u16 {
        self.reg16(Reg16::PC)
    }

    pub open spec fn sp(self) -> u16 {
        self.reg16(Reg16::SP)
    }

    /// AF exchanged with its alternate.
    pub open spec fn swapped_af(self) -> Z80View {
        Z80View {
            regs: self.regs.update(0, self.shadow[0]).update(1, self.shadow[1]),
            shadow: self.shadow.update(0, self.regs[0]).update(1, self.regs[1]),
            ..self
        }
    }

    /// BC, DE and HL exchanged with their alternates.
    pub open spec fn swapped_main(self) -> Z80View {
        Z80View {
            regs: Seq::new(18, |i: int| if 2 <= i < 8 { self.shadow[i] } else { self.regs[i] }),
            shadow: Seq::new(8, |i: int| if 2 <= i < 8 { self.regs[i] } else { self.shadow[i] }),
            ..self
        }
    }

    /// The cycle counter after `n` more cycles; it saturates rather than wrap.
    pub open spec fn add_cycles(self, n: u64) -> Z80View {
        Z80View { cycles: self.cycles.saturating_add(n), ..self }
    }
}

/// The CPU's registers, interrupt flip-flops, interrupt mode and cycle
/// counter.
#[derive(Clone, Copy, Debug, PartialEq, Eq)]
pub struct Z80State {
    regs: [u8; 18],
    shadow: [u8; 8],
    iff1: bool,
    iff2: bool,
    interrupt_mode: u8,
    cycles: u64,
    halted: bool,
}

impl View for Z80State {
    type V = Z80View;

    closed spec fn view(&self) -> Z80View {
        Z80View {
            regs: self.regs@,
            shadow: self.shadow@,
            iff1: self.iff1,
            iff2: self.iff2,
            interrupt_mode: self.interrupt_mode,
            cycles: self.cycles,
            halted: self.halted,
        }
    }
}

impl Z80State {
    /// The state at power-on: every register zero, interrupts disabled,
    /// interrupt mode 0.
    pub fn new() -> (r: Z80State)
        ensures
            r@.wf(),
            forall|i: int| 0 <= i < 18 ==> r@.regs[i] == 0,
            forall|i: int| 0 <= i < 8 ==> r@.shadow[i] == 0,
            !r@.iff1 && !r@.iff2 && !r@.halted,
            r@.interrupt_mode == 0,
            r@.cycles == 0,
    {
        Z80State {
            regs: [0u8; 18],
            shadow: [0u8; 8],
            iff1: false,
            iff2: false,
            interrupt_mode: 0,
            cycles: 0,
            halted: false,
        }
    }

    /// The register file always has its full size.
    pub proof fn lemma_wf(&self)
        ensures
            self@.wf(),
    {
    }

    pub fn reg8(&self, r: Reg8) -> (v: u8)
        ensures
            v == self@.reg8(r),
    {
        self.regs[r.index()]
    }

    pub fn set_reg8(&mut self, r: Reg8, v: u8)
        ensures
            final(self)@ == old(self)@.set8(r, v),
    {
        self.regs[r.index()] = v;
    }

    pub fn reg16(&self, r: Reg16) -> (v: u16)
        ensures
            v == self@.reg16(r),
    {
        let i = r.high_index();
        self.regs[i] as u16 * 256 + self.regs[i + 1] as u16
    }

    pub fn set_reg16(&mut self, r: Reg16, v: u16)
        ensures
            final(self)@ == old(self)@.set16(r, v),
    {
        let i = r.high_index();
        self.regs[i] = (v / 256) as u8;
        self.regs[i + 1] = (v % 256) as u8;
    }

    pub fn iff1(&self) -> (r: bool)
        ensures
            r == self@.iff1,
    {
        self.iff1
    }

    pub fn iff2(&self) -> (r: bool)
        ensures
            r == self@.iff2,
    {
        self.iff2
    }

    pub fn set_iff1(&mut self, b: bool)
        ensures
            final(self)@ == (Z80View { iff1: b, ..old(self)@ }),
    {
        self.iff1 = b;
    }

    pub fn set_iff2(&mut self, b: bool)
        ensures
            final(self)@ == (Z80View { iff2: b, ..old(self)@ }),
    {
        self.iff2 = b;
    }

    pub fn interrupt_mode(&self) -> (r: u8)
        ensures
            r == self@.interrupt_mode,
    {
        self.interrupt_mode
    }

    pub fn set_interrupt_mode(&mut self, m: u8)
        ensures
            final(self)@ == (Z80View { interrupt_mode: m, ..old(self)@ }),
    {
        self.interrupt_mode = m;
    }

    pub fn halted(&self) -> (r: bool)
        ensures
            r == self@.halted,
    {
        self.halted
    }

    pub fn set_halted(&mut self, b: bool)
        ensures
            final(self)@ == (Z80View { halted: b, ..old(self)@ }),
    {
        self.halted = b;
    }

    pub fn cycles(&self) -> (r: u64)
        ensures
            r == self@.cycles,
    {
        self.cycles
    }

    /// Charges `n` cycles.
    pub fn inc_cycles(&mut self, n: u64)
        ensures
            final(self)@ == old(self)@.add_cycles(n),
            final(self)@.cycles >= old(self)@.cycles,
    {
        self.cycles = self.cycles.saturating_add(n);
    }

    /// Swaps AF with its alternate.
    pub fn ex_af(&mut self)
        ensures
            final(self)@ == old(self)@.swapped_af(),
    {
        let a = self.regs[0];
        let f = self.regs[1];
        self.regs[0] = self.shadow[0];
        self.regs[1] = self.shadow[1];
        self.shadow[0] = a;
        self.shadow[1] = f;
    }

    /// Swaps BC, DE and HL with their alternates.
    pub fn exx(&mut self)
        ensures
            final(self)@ == old(self)@.swapped_main(),
    {
        let mut i: usize = 2;
        while i < 8
            invariant
                2 <= i <= 8,
                self@.regs.len() == 18,
                self@.shadow.len() == 8,
                forall|j: int| 2 <= j < i ==> self@.regs[j] == old(self)@.shadow[j] && self@.shadow[j]
                    == old(self)@.regs[j],
                forall|j: int| (0 <= j < 2 || i <= j < 18) ==> self@.regs[j] == old(self)@.regs[j],
                forall|j: int| (0 <= j < 2 || i <= j < 8) ==> self@.shadow[j] == old(self)@.shadow[j],
                self@.iff1 == old(self)@.iff1,
                self@.iff2 == old(self)@.iff2,
                self@.interrupt_mode == old(self)@.interrupt_mode,
                self@.cycles == old(self)@.cycles,
                self@.halted == old(self)@.halted,
            decreases 8 - i,
        {
            let t = self.regs[i];
            self.regs[i] = self.shadow[i];
            self.shadow[i] = t;
            i = i + 1;
        }
        proof {
            assert(self@.regs =~= old(self)@.swapped_main().regs);
            assert(self@.shadow =~= old(self)@.swapped_main().shadow);
        }
    }
}

/// An 8-bit operand: a register, an immediate byte, or a byte of memory
/// found by a direct address, by a register pair, or by an index register
/// plus a signed displacement.
#[derive(Clone, Copy, Debug, PartialEq, Eq, Structural)]
pub enum Operand8 {
    Reg(Reg8),
    Imm(u8),
    Addr(u16),
    Ind(Reg16),
    Shift(Reg16, u8),
}

/// A 16-bit operand: a register pair, an immediate word, or the little-endian
/// word at a direct address or at the address a register pair holds.
#[derive(Clone, Copy, Debug, PartialEq, Eq, Structural)]
pub enum Operand16 {
    Reg(Reg16),
    Imm(u16),
    Addr(u16),
    Ind(Reg16),
}

/// `base` plus the displacement byte `d` read as signed, modulo 64 KiB.
pub open spec fn spec_displace(base: u16, d: u8) -> u16 {
    ((base as int + d as int + 65536 - (if d >= 128 { 256int } else { 0int })) % 65536) as u16
}

#[verifier::when_used_as_spec(spec_displace)]
pub fn displace(base: u16, d: u8) -> (r: u16)
    ensures
        r == spec_displace(base, d),
{
    ((base as u32 + d as u32 + 65536 - (if d >= 128 { 256u32 } else { 0u32 })) % 65536) as u16
}

impl Operand8 {
    /// The address of a memory operand.
    pub open spec fn address(self, z: Z80View) -> u16 {
        match self {
            Operand8::Addr(a) => a,
            Operand8::Ind(r) => z.reg16(r),
            Operand8::Shift(r, d) => spec_displace(z.reg16(r), d),
            _ => 0,
        }
    }

    /// The operand's value.
    pub open spec fn value(self, z: Z80View, m: MemState) -> u8 {
        match self {
            Operand8::Reg(r) => z.reg8(r),
            Operand8::Imm(n) => n,
            _ => m.read(self.address(z)),
        }
    }

    /// The CPU and memory after `v` is written to the operand.
    pub open spec fn store(self, z: Z80View, m: MemState, v: u8) -> (Z80View, MemState) {
        match self {
            Operand8::Reg(r) => (z.set8(r, v), m),
            Operand8::Imm(_) => (z, m),
            _ => (z, m.write(self.address(z), v)),
        }
    }

    pub fn view(self, z: &Z80State, m: &SmsMemory) -> (r: u8)
        requires
            m@.wf(),
        ensures
            r == self.value(z@, m@),
    {
        match self {
            Operand8::Reg(r) => z.reg8(r),
            Operand8::Imm(n) => n,
            Operand8::Addr(a) => m.read(a),
            Operand8::Ind(r) => m.read(z.reg16(r)),
            Operand8::Shift(r, d) => m.read(displace(z.reg16(r), d)),
        }
    }

    pub fn change(self, z: &mut Z80State, m: &mut SmsMemory, v: u8)
        requires
            old(m)@.wf(),
        ensures
            (final(z)@, final(m)@) == self.store(old(z)@, old(m)@, v),
            final(m)@.wf(),
            final(m).kind() == old(m).kind(),
    {
        match self {
            Operand8::Reg(r) => z.set_reg8(r, v),
            Operand8::Imm(_) => {},
            Operand8::Addr(a) => m.write(a, v),
            Operand8::Ind(r) => m.write(z.reg16(r), v),
            Operand8::Shift(r, d) => m.write(displace(z.reg16(r), d), v),
        }
    }
}

impl Operand16 {
    pub open spec fn value(self, z: Z80View, m: MemState) -> u16 {
        match self {
            Operand16::Reg(r) => z.reg16(r),
            Operand16::Imm(n) => n,
            Operand16::Addr(a) => m.read16(a),
            Operand16::Ind(r) => m.read16(z.reg16(r)),
        }
    }

    pub open spec fn store(self, z: Z80View, m: MemState, v: u16) -> (Z80View, MemState) {
        match self {
            Operand16::Reg(r) => (z.set16(r, v), m),
            Operand16::Imm(_) => (z, m),
            Operand16::Addr(a) => (z, m.write16(a, v)),
            Operand16::Ind(r) => (z, m.write16(z.reg16(r), v)),
        }
    }

    pub fn view(self, z: &Z80State, m: &SmsMemory) -> (r: u16)
        requires
            m@.wf(),
        ensures
            r == self.value(z@, m@),
    {
        match self {
            Operand16::Reg(r) => z.reg16(r),
            Operand16::Imm(n) => n,
            Operand16::Addr(a) => m.read16(a),
            Operand16::Ind(r) => m.read16(z.reg16(r)),
        }
    }

    pub fn change(self, z: &mut Z80State, m: &mut SmsMemory, v: u16)
        requires
            old(m)@.wf(),
        ensures
            (final(z)@, final(m)@) == self.store(old(z)@, old(m)@, v),
            final(m)@.wf(),
            final(m).kind() == old(m).kind(),
    {
        match self {
            Operand16::Reg(r) => z.set_reg16(r, v),
            Operand16::Imm(_) => {},
            Operand16::Addr(a) => m.write16(a, v),
            Operand16::Ind(r) => m.write16(z.reg16(r), v),
        }
    }
}

} // verus!
