//! Interrupt resolution, consulted between instructions.

use vstd::prelude::*;
use crate::instructions::{push_value, sem_push_value, Machine};
use crate::mapper::{MemState, SmsMemory};
use crate::z80::{Reg16, Z80State, Z80View};

verus! {

/// Where a non-maskable interrupt jumps.
pub const NMI_VECTOR: u16 = 0x66;
/// Where a maskable interrupt jumps in mode 1.
pub const MI_VECTOR: u16 = 0x38;

/// A non-maskable interrupt: the program counter is pushed, execution goes
/// to 0x66, IFF1 is cleared and IFF2 left alone; 11 cycles.
pub open spec fn nmi_spec(z: Z80View, m: MemState) -> Machine {
    let (z1, m1) = sem_push_value(z, m, z.pc());
    (Z80View { iff1: false, halted: false, ..z1.set16(Reg16::PC, NMI_VECTOR) }.add_cycles(11), m1)
}

/// A maskable interrupt, if IFF1 lets it in. `bus` is the byte the
/// interrupting device puts on the data bus. Both flip-flops are cleared,
/// the program counter is pushed, and execution goes to:
/// - in mode 0, the restart that `bus` encodes (`bus & 0x38`), 13 cycles;
/// - in mode 1, 0x38, 13 cycles;
/// - in mode 2, the word at `I * 256 + bus`, 19 cycles.
pub open spec fn mi_spec(z: Z80View, m: MemState, bus: u8) -> Option<Machine> {
    if !z.iff1 {
        None
    } else {
        let (z1, m1) = sem_push_value(z, m, z.pc());
        let (target, cost): (u16, u64) = if z.interrupt_mode == 1 {
            (MI_VECTOR, 13)
        } else if z.interrupt_mode == 0 {
            ((bus & 0x38) as u16, 13)
        } else {
            (m.read16((z.reg8(crate::z80::Reg8::I) as int * 256 + bus as int) as u16), 19)
        };
        Some(
            (
                Z80View {
                    iff1: false,
                    iff2: false,
                    halted: false,
                    ..z1.set16(Reg16::PC, target)
                }.add_cycles(cost),
                m1,
            ),
        )
    }
}

/// Services a non-maskable interrupt.
pub fn nonmaskable_interrupt(z: &mut Z80State, m: &mut SmsMemory)
    requires
        old(m)@.wf(),
    ensures
        (final(z)@, final(m)@) == nmi_spec(old(z)@, old(m)@),
        final(m)@.wf(),
        final(m).kind() == old(m).kind(),
{
    let pc = z.reg16(Reg16::PC);
    push_value(z, m, pc);
    z.set_reg16(Reg16::PC, NMI_VECTOR);
    z.set_iff1(false);
    z.set_halted(false);
    z.inc_cycles(11);
}

/// Services a maskable interrupt if IFF1 is set; says whether it did.
pub fn maskable_interrupt(z: &mut Z80State, m: &mut SmsMemory, bus: u8) -> (serviced: bool)
    requires
        old(m)@.wf(),
    ensures
        serviced == old(z)@.iff1,
        serviced ==> (final(z)@, final(m)@) == mi_spec(old(z)@, old(m)@, bus)->Some_0,
        !serviced ==> final(z)@ == old(z)@ && final(m)@ == old(m)@,
        final(m)@.wf(),
        final(m).kind() == old(m).kind(),
{
    if !z.iff1() {
        return false;
    }
    let mode = z.interrupt_mode();
    let (target, cost): (u16, u64) = if mode == 1 {
        (MI_VECTOR, 13)
    } else if mode == 0 {
        ((bus & 0x38) as u16, 13)
    } else {
        let i = z.reg8(crate::z80::Reg8::I);
        (m.read16(i as u16 * 256 + bus as u16), 19)
    };
    let pc = z.reg16(Reg16::PC);
    push_value(z, m, pc);
    z.set_reg16(Reg16::PC, target);
    z.set_iff1(false);
    z.set_iff2(false);
    z.set_halted(false);
    z.inc_cycles(cost);
    true
}

/// A pending maskable interrupt is never serviced while IFF1 is clear.
/// Serviced in mode 1, it always sends execution to 0x38 and lowers the stack
/// pointer by two, with the interrupted program counter stored there: high
/// byte at SP - 1, low byte at SP - 2. When the stack is in system RAM the
/// two bytes read back from the new stack pointer, little-endian.
pub proof fn lemma_maskable_interrupt(z: Z80View, m: MemState, bus: u8)
    requires
        z.wf(),
        m.wf(),
    ensures
        z.iff1 && z.interrupt_mode == 1 && 0xC002 <= z.sp() <= 0xFFFC ==> ({
            let (z1, m1) = mi_spec(z, m, bus)->Some_0;
            &&& m1.read(z1.sp()) == (z.pc() % 256) as u8
            &&& m1.read(z1.sp().wrapping_add(1)) == (z.pc() / 256) as u8
        }),
        !z.iff1 ==> mi_spec(z, m, bus) is None,
        z.iff1 && z.interrupt_mode == 1 ==> ({
            let (z1, m1) = mi_spec(z, m, bus)->Some_0;
            let sp = z.sp();
            &&& z1.pc() == MI_VECTOR
            &&& z1.sp() == sp.wrapping_sub(2)
            &&& m1 == m.write(sp.wrapping_sub(1), (z.pc() / 256) as u8).write(
                sp.wrapping_sub(2),
                (z.pc() % 256) as u8,
            )
            &&& !z1.iff1 && !z1.iff2
        }),
{
    if z.iff1 && z.interrupt_mode == 1 {
        let sp = z.sp();
        let z0 = z.set16(Reg16::SP, sp.wrapping_sub(2));
        let z1 = z0.set16(Reg16::PC, MI_VECTOR);
        assert(z1.regs[12] == z0.regs[12] && z1.regs[13] == z0.regs[13]);
        assert(z1.regs[14] == 0 && z1.regs[15] == 0x38);
        let v = sp.wrapping_sub(2);
        assert((v / 256) as u8 as int * 256 + (v % 256) as u8 as int == v);
        if 0xC002 <= sp <= 0xFFFC {
            let hi = (z.pc() / 256) as u8;
            let lo = (z.pc() % 256) as u8;
            let a1 = sp.wrapping_sub(1);
            let a2 = sp.wrapping_sub(2);
            assert(a1 == sp - 1 && a2 == sp - 2);
            crate::mapper::lemma_system_ram_write_read(m, a1, hi, a2);
            let mh = m.write(a1, hi);
            crate::mapper::lemma_system_ram_write_read(mh, a2, lo, a2);
            crate::mapper::lemma_system_ram_write_read(mh, a2, lo, a1);
            crate::mapper::lemma_system_ram_write_read(m, a1, hi, a1);
            assert(a2 as int % 0x2000 != a1 as int % 0x2000);
            assert(a2.wrapping_add(1) == a1);
        }
    }
}

} // verus!
