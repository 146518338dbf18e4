//! The video display processor: its registers and memories, its two I/O
//! ports, and the stepper that advances it one scanline per call.

use vstd::prelude::*;

verus! {

/// Frame interrupt pending, in the status flags.
pub const FRAME_INTERRUPT_FLAG: u8 = 0x80;
/// More than eight sprites on a line.
pub const SPRITE_OVERFLOW_FLAG: u8 = 0x40;
/// Two opaque sprite pixels met.
pub const SPRITE_COLLISION_FLAG: u8 = 0x20;

/// VDP cycles per scanline.
pub const CYCLES_PER_LINE: u64 = 342;

pub const VRAM_SIZE: usize = 0x4000;

#[derive(Clone, Copy, Debug, PartialEq, Eq, Structural)]
pub enum TvSystem {
    Ntsc,
    Pal,
}

/// The VDP's state.
#[derive(Clone, Debug)]
pub struct Vdp {
    pub status_flags: u8,
    pub line_interrupt_pending: bool,
    /// Set between the first and second byte of a two-byte control write.
    pub control_flag: bool,
    /// The code (top two bits) and VRAM address (low 14 bits) latched by
    /// control writes.
    pub code_address: u16,
    /// The byte prefetched for the next data-port read.
    pub read_buffer: u8,
    pub registers: [u8; 16],
    pub cram: [u8; 32],
    pub vram: Vec<u8>,
    /// The vertical counter: the line about to be drawn.
    pub v: u16,
    pub h: u16,
    pub line_counter: u8,
    /// Vertical scroll, latched from register 9 at the start of each frame.
    pub y_scroll: u8,
    pub cycles: u64,
    pub tv_system: TvSystem,
}

impl Vdp {
    pub open spec fn spec_total_lines(&self) -> u16 {
        match self.tv_system {
            TvSystem::Ntsc => 262,
            TvSystem::Pal => 313,
        }
    }

    /// Scanlines per frame: 262 on NTSC, 313 on PAL.
    #[verifier::when_used_as_spec(spec_total_lines)]
    pub fn total_lines(&self) -> (r: u16)
        ensures
            r == self.spec_total_lines(),
    {
        match self.tv_system {
            TvSystem::Ntsc => 262,
            TvSystem::Pal => 313,
        }
    }

    pub open spec fn spec_active_lines(&self) -> u16 {
        if self.registers[0] & 0x02 != 0 && self.registers[1] & 0x10 != 0 {
            224
        } else if self.registers[0] & 0x02 != 0 && self.registers[1] & 0x08 != 0 {
            240
        } else {
            192
        }
    }

    /// Lines of the active display: 192, or 224 or 240 in the taller modes
    /// that registers 0 and 1 select.
    #[verifier::when_used_as_spec(spec_active_lines)]
    pub fn active_lines(&self) -> (r: u16)
        ensures
            r == self.spec_active_lines(),
    {
        if self.registers[0] & 0x02 != 0 && self.registers[1] & 0x10 != 0 {
            224
        } else if self.registers[0] & 0x02 != 0 && self.registers[1] & 0x08 != 0 {
            240
        } else {
            192
        }
    }

    /// Whether `self` and `other` agree on the state the line stepper keeps:
    /// counters, cycle count, TV system and the latched vertical scroll.
    pub open spec fn same_timing(&self, other: Vdp) -> bool {
        &&& self.v == other.v
        &&& self.h == other.h
        &&& self.cycles == other.cycles
        &&& self.tv_system == other.tv_system
        &&& self.line_counter == other.line_counter
        &&& self.y_scroll == other.y_scroll
    }

    pub open spec fn wf(&self) -> bool {
        &&& self.vram@.len() == VRAM_SIZE
        &&& self.v < self.spec_total_lines()
    }

    /// An explicit deep copy, video RAM included.
    pub fn deep_copy(&self) -> (r: Vdp)
        ensures
            r.vram@ == self.vram@,
            r == (Vdp { vram: r.vram, ..*self }),
    {
        let vram = self.vram.clone();
        proof {
            assert(vram@ =~= self.vram@);
        }
        Vdp { vram, ..*self }
    }

    /// A VDP at power-on.
    pub fn new(tv_system: TvSystem) -> (r: Vdp)
        ensures
            r.wf(),
            r.v == 0,
            r.cycles == 0,
            r.status_flags == 0,
            !r.line_interrupt_pending,
            r.tv_system == tv_system,
    {
        Vdp {
            status_flags: 0,
            line_interrupt_pending: false,
            control_flag: false,
            code_address: 0,
            read_buffer: 0,
            registers: [0u8; 16],
            cram: [0u8; 32],
            vram: vec![0u8; VRAM_SIZE],
            v: 0,
            h: 0,
            line_counter: 0,
            y_scroll: 0,
            cycles: 0,
            tv_system,
        }
    }

    /// The code and the address after one more VRAM access: the address
    /// wraps within 16 KiB and the code is kept.
    pub open spec fn next_code_address(ca: u16) -> u16 {
        ((ca / 0x4000) * 0x4000 + ((ca % 0x4000) + 1) % 0x4000) as u16
    }

    fn advance_address(&mut self)
        ensures
            final(self).same_timing(*old(self)),
            final(self).code_address == Self::next_code_address(old(self).code_address),
            final(self).vram == old(self).vram,
            final(self).v == old(self).v,
            final(self).tv_system == old(self).tv_system,
            final(self).registers == old(self).registers,
            final(self).cycles == old(self).cycles,
            final(self).status_flags == old(self).status_flags,
            final(self).line_interrupt_pending == old(self).line_interrupt_pending,
            final(self).control_flag == old(self).control_flag,
            final(self).read_buffer == old(self).read_buffer,
            final(self).cram == old(self).cram,
    {
        let ca = self.code_address;
        self.code_address = (ca / 0x4000) * 0x4000 + ((ca % 0x4000) + 1) % 0x4000;
    }

    /// A byte written to the control port.
    ///
    /// The first byte of a pair sets the low byte of the address; the second
    /// sets the high byte and the code. Code 0 prefetches a byte from VRAM for
    /// reading; code 2 writes the low byte into the register that the high
    /// byte's low nibble names.
    pub fn write_control(&mut self, x: u8)
        requires
            old(self).wf(),
        ensures
            final(self).same_timing(*old(self)),
            final(self).wf(),
            final(self).control_flag == !old(self).control_flag,
            final(self).cram == old(self).cram,
            final(self).status_flags == old(self).status_flags,
            final(self).line_interrupt_pending == old(self).line_interrupt_pending,
            final(self).v == old(self).v,
            final(self).cycles == old(self).cycles,
            final(self).tv_system == old(self).tv_system,
            final(self).vram == old(self).vram,
            !old(self).control_flag ==> final(self).code_address == (old(self).code_address / 256)
                * 256 + x,
            !old(self).control_flag ==> final(self).registers == old(self).registers,
            old(self).control_flag ==> ({
                let ca = (x as int * 256 + old(self).code_address % 256) as u16;
                &&& ca / 0x4000 == 0 ==> final(self).read_buffer == old(self).vram@[ca as int % 0x4000]
                    && final(self).code_address == Self::next_code_address(ca)
                &&& ca / 0x4000 == 2 ==> final(self).registers@ == old(self).registers@.update(
                    x as int % 16,
                    (ca % 256) as u8,
                ) && final(self).code_address == ca
                &&& ca / 0x4000 != 2 ==> final(self).registers == old(self).registers
                &&& ca / 0x4000 != 0 ==> final(self).read_buffer == old(self).read_buffer
                &&& ca / 0x4000 != 0 ==> final(self).code_address == ca
            }),
    {
        if self.control_flag {
            let ca = x as u16 * 256 + self.code_address % 256;
            self.code_address = ca;
            let code = ca / 0x4000;
            if code == 0 {
                self.read_buffer = self.vram[(ca % 0x4000) as usize];
                self.advance_address();
            } else if code == 2 {
                let reg = (x % 16) as usize;
                self.registers[reg] = (ca % 256) as u8;
            }
            self.control_flag = false;
        } else {
            self.code_address = (self.code_address / 256) * 256 + x as u16;
            self.control_flag = true;
        }
    }

    /// A read of the control port: the status flags, which the read clears,
    /// together with the pending line interrupt and the control-write toggle.
    pub fn read_control(&mut self) -> (r: u8)
        requires
            old(self).wf(),
        ensures
            final(self).same_timing(*old(self)),
            r == old(self).status_flags,
            final(self).wf(),
            final(self).status_flags == 0,
            !final(self).line_interrupt_pending,
            !final(self).control_flag,
            final(self).v == old(self).v,
            final(self).cycles == old(self).cycles,
            final(self).registers == old(self).registers,
            final(self).tv_system == old(self).tv_system,
            final(self).vram == old(self).vram,
            final(self).cram == old(self).cram,
    {
        let result = self.status_flags;
        self.status_flags = 0;
        self.line_interrupt_pending = false;
        self.control_flag = false;
        result
    }

    /// A byte written to the data port: into palette RAM when the code is 3,
    /// into VRAM otherwise; the address then advances.
    pub fn write_data(&mut self, x: u8)
        requires
            old(self).wf(),
        ensures
            final(self).same_timing(*old(self)),
            final(self).wf(),
            !final(self).control_flag,
            final(self).code_address == Self::next_code_address(old(self).code_address),
            old(self).code_address / 0x4000 == 3 ==> final(self).cram@ == old(self).cram@.update(
                old(self).code_address as int % 32,
                x,
            ) && final(self).vram == old(self).vram,
            old(self).code_address / 0x4000 != 3 ==> final(self).vram@ == old(self).vram@.update(
                old(self).code_address as int % 0x4000,
                x,
            ) && final(self).cram == old(self).cram,
            final(self).v == old(self).v,
            final(self).cycles == old(self).cycles,
            final(self).registers == old(self).registers,
            final(self).status_flags == old(self).status_flags,
            final(self).line_interrupt_pending == old(self).line_interrupt_pending,
            final(self).tv_system == old(self).tv_system,
    {
        self.control_flag = false;
        let ca = self.code_address;
        if ca / 0x4000 == 3 {
            self.cram[(ca % 32) as usize] = x;
        } else {
            self.vram.set((ca % 0x4000) as usize, x);
        }
        self.advance_address();
    }

    /// A read of the data port: the prefetched byte. The next byte is then
    /// prefetched and the address advances.
    pub fn read_data(&mut self) -> (r: u8)
        requires
            old(self).wf(),
        ensures
            final(self).same_timing(*old(self)),
            r == old(self).read_buffer,
            final(self).wf(),
            !final(self).control_flag,
            final(self).read_buffer == old(self).vram@[old(self).code_address as int % 0x4000],
            final(self).code_address == Self::next_code_address(old(self).code_address),
            final(self).vram == old(self).vram,
            final(self).v == old(self).v,
            final(self).cycles == old(self).cycles,
            final(self).registers == old(self).registers,
            final(self).status_flags == old(self).status_flags,
            final(self).line_interrupt_pending == old(self).line_interrupt_pending,
            final(self).tv_system == old(self).tv_system,
    {
        self.control_flag = false;
        let result = self.read_buffer;
        self.read_buffer = self.vram[(self.code_address % 0x4000) as usize];
        self.advance_address();
        result
    }

    /// The vertical counter as the CPU reads it: it jumps back past the
    /// bottom border so that it fits in a byte.
    pub open spec fn v_counter(&self) -> u8 {
        (match self.tv_system {
            TvSystem::Ntsc => if self.v <= 0xDA {
                self.v as int
            } else {
                self.v - 6
            },
            TvSystem::Pal => if self.v <= 0xF2 {
                self.v as int
            } else {
                self.v - 57
            },
        }) as u8
    }

    pub fn read_v(&self) -> (r: u8)
        requires
            self.wf(),
        ensures
            r == self.v_counter(),
    {
        let v = self.v;
        match self.tv_system {
            TvSystem::Ntsc => if v <= 0xDA {
                v as u8
            } else {
                (v - 6) as u8
            },
            TvSystem::Pal => if v <= 0xF2 {
                v as u8
            } else {
                (v - 57) as u8
            },
        }
    }

    /// The horizontal counter as the CPU reads it.
    pub fn read_h(&self) -> (r: u8)
        ensures
            r == self.h / 2 % 256,
    {
        (self.h / 2 % 256) as u8
    }

    pub open spec fn spec_requesting_mi(&self) -> bool {
        (self.registers[1] & 0x20 != 0 && self.status_flags & FRAME_INTERRUPT_FLAG != 0) || (
        self.registers[0] & 0x10 != 0 && self.line_interrupt_pending)
    }

    /// Whether the VDP asserts the maskable interrupt line: a pending frame
    /// interrupt with frame interrupts enabled (register 1, bit 5), or a
    /// pending line interrupt with line interrupts enabled (register 0, bit 4).
    #[verifier::when_used_as_spec(spec_requesting_mi)]
    pub fn requesting_mi(&self) -> (r: bool)
        ensures
            r == self.spec_requesting_mi(),
    {
        (self.registers[1] & 0x20 != 0 && self.status_flags & FRAME_INTERRUPT_FLAG != 0) || (
        self.registers[0] & 0x10 != 0 && self.line_interrupt_pending)
    }

    /// Whether this call of the stepper asserts the frame interrupt: the line
    /// being finished is the first one past the active display.
    pub open spec fn asserts_frame_interrupt(&self) -> bool {
        self.v == self.spec_active_lines()
    }

    /// The VDP after one scanline.
    pub open spec fn stepped(&self) -> Vdp {
        let v = self.v;
        let active = self.spec_active_lines();
        let status = if v == active {
            self.status_flags | FRAME_INTERRUPT_FLAG
        } else {
            self.status_flags
        };
        let (line_counter, line_irq) = if v <= active {
            let lc = ((self.line_counter as int + 255) % 256) as u8;
            if lc == 0xFF {
                (self.registers[10], true)
            } else {
                (lc, self.line_interrupt_pending)
            }
        } else {
            (self.registers[10], self.line_interrupt_pending)
        };
        let new_v = ((v + 1) % self.spec_total_lines() as int) as u16;
        Vdp {
            status_flags: status,
            line_counter,
            line_interrupt_pending: line_irq,
            v: new_v,
            y_scroll: if new_v == 0 { self.registers[9] } else { self.y_scroll },
            cycles: self.cycles.saturating_add(CYCLES_PER_LINE),
            ..*self
        }
    }

    /// Finishes the current scanline.
    ///
    /// On the line just past the active display the frame interrupt becomes
    /// pending. On the active lines and the one after, the line counter counts
    /// down; when it wraps past zero it is reloaded from register 10 and a line
    /// interrupt becomes pending. Further down it is reloaded on every line.
    /// The vertical counter then advances, wrapping at the frame's line count,
    /// and at the wrap the vertical scroll is latched from register 9. Each
    /// line costs 342 VDP cycles.
    pub fn finish_line(&mut self)
        requires
            old(self).wf(),
        ensures
            *final(self) == old(self).stepped(),
            final(self).wf(),
    {
        let v = self.v;
        let active = self.active_lines();
        if v == active {
            self.status_flags = self.status_flags | FRAME_INTERRUPT_FLAG;
        }
        if v <= active {
            self.line_counter = ((self.line_counter as u16 + 255) % 256) as u8;
            if self.line_counter == 0xFF {
                self.line_counter = self.registers[10];
                self.line_interrupt_pending = true;
            }
        } else {
            self.line_counter = self.registers[10];
        }
        let new_v = (v + 1) % self.total_lines();
        self.v = new_v;
        if new_v == 0 {
            self.y_scroll = self.registers[9];
        }
        self.cycles = self.cycles.saturating_add(CYCLES_PER_LINE);
    }
}

/// The VDP after `n` scanlines.
pub open spec fn steps(vdp: Vdp, n: nat) -> Vdp
    decreases n,
{
    if n == 0 {
        vdp
    } else {
        steps(vdp, (n - 1) as nat).stepped()
    }
}

proof fn lemma_steps(vdp: Vdp, n: nat)
    requires
        vdp.wf(),
    ensures
        steps(vdp, n).wf(),
        steps(vdp, n).v == (vdp.v + n) % vdp.spec_total_lines() as int,
        steps(vdp, n).registers == vdp.registers,
        steps(vdp, n).tv_system == vdp.tv_system,
    decreases n,
{
    if n > 0 {
        lemma_steps(vdp, (n - 1) as nat);
        let t = vdp.spec_total_lines() as int;
        let p = steps(vdp, (n - 1) as nat);
        vstd::arithmetic::div_mod::lemma_add_mod_noop(vdp.v + n - 1, 1, t);
        vstd::arithmetic::div_mod::lemma_small_mod(1, t as nat);
        vstd::arithmetic::div_mod::lemma_mod_twice(vdp.v + n, t);
        assert(p.v == (vdp.v + n - 1) % t);
    }
}

/// Over one frame's worth of stepper calls the vertical counter comes back
/// to where it started, and exactly one of those calls, the one that finishes
/// the first line past the active display, asserts the frame interrupt.
pub proof fn lemma_frame_interrupt_once_per_frame(vdp: Vdp)
    requires
        vdp.wf(),
    ensures
        steps(vdp, vdp.spec_total_lines() as nat).v == vdp.v,
        ({
            let t = vdp.spec_total_lines() as int;
            let k = (vdp.spec_active_lines() - vdp.v + t) % t;
            &&& 0 <= k < t
            &&& forall|i: nat| i < t ==> (#[trigger] steps(vdp, i).asserts_frame_interrupt() <==> i
                == k)
            &&& steps(vdp, (k + 1) as nat).status_flags & FRAME_INTERRUPT_FLAG != 0
        }),
{
    let t = vdp.spec_total_lines() as int;
    let a = vdp.spec_active_lines() as int;
    let k = (a - vdp.v + t) % t;
    lemma_steps(vdp, t as nat);
    vstd::arithmetic::div_mod::lemma_mod_add_multiples_vanish(vdp.v as int, t);
    vstd::arithmetic::div_mod::lemma_small_mod(vdp.v as nat, t as nat);
    let before = steps(vdp, k as nat).status_flags;
    assert((before | 0x80u8) & 0x80u8 != 0) by (bit_vector);
    assert forall|i: nat| i < t implies (#[trigger] steps(vdp, i).asserts_frame_interrupt() <==> i
        == k) by {
        lemma_steps(vdp, i);
        let s = steps(vdp, i);
        assert(s.spec_active_lines() == a);
        if i == k {
            assert((vdp.v + i) % t == a) by (nonlinear_arith)
                requires
                    i == (a - vdp.v + t) % t,
                    0 <= vdp.v < t,
                    0 <= a < t,
                    t > 0,
            {
                vstd::arithmetic::div_mod::lemma_add_mod_noop(vdp.v as int, a - vdp.v + t, t);
                vstd::arithmetic::div_mod::lemma_small_mod(vdp.v as nat, t as nat);
                vstd::arithmetic::div_mod::lemma_mod_add_multiples_vanish(a, t);
                vstd::arithmetic::div_mod::lemma_small_mod(a as nat, t as nat);
            }
        }
        if (vdp.v + i) % t == a {
            assert(i == k) by (nonlinear_arith)
                requires
                    (vdp.v + i) % t == a,
                    k == (a - vdp.v + t) % t,
                    0 <= i < t,
                    0 <= vdp.v < t,
                    0 <= a < t,
                    t > 0,
            {
                vstd::arithmetic::div_mod::lemma_fundamental_div_mod(vdp.v + i, t);
                vstd::arithmetic::div_mod::lemma_fundamental_div_mod(a - vdp.v + t, t);
            }
        }
    }
    assert(steps(vdp, k as nat).asserts_frame_interrupt());
    assert(steps(vdp, (k + 1) as nat) == steps(vdp, k as nat).stepped());
}

} // verus!
