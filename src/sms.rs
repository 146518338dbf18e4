//! A console session: the CPU, the VDP and the cartridge memory under one
//! owner, the I/O ports that join them, and the scheduler that runs them in
//! step, one scanline and one frame at a time.

use vstd::prelude::*;
use crate::alu::{flags, parity_even, CF, NF, ZF};
use crate::interpreter::{
    decode, decodes_as, execute, exec_spec, lemma_exec_cycles, BlockIo, Decoded, Instr,
};
use crate::interrupts::{maskable_interrupt, nonmaskable_interrupt};
use crate::mapper::{MemState, MemoryMapperType, SmsMemory};
use crate::memory::{MemoryMapError, MAX_ROM_LEN, valid_rom_len};
use crate::render::{draw_line, drawn, line_pixel, FRAME_LINES, LINE_WIDTH};
use crate::vdp::{TvSystem, Vdp};
use crate::z80::{Reg16, Reg8, Z80State, Z80View};

verus! {

/// The state of the controls: the two joypad ports, active low, and the
/// pause button.
#[derive(Clone, Copy, Debug, PartialEq, Eq, Structural)]
pub struct PlayerStatus {
    pub joypad_a: u8,
    pub joypad_b: u8,
    pub pause: bool,
}

impl PlayerStatus {
    /// Nothing pressed.
    pub fn new() -> (r: PlayerStatus)
        ensures
            r.joypad_a == 0xFF && r.joypad_b == 0xFF && !r.pause,
    {
        PlayerStatus { joypad_a: 0xFF, joypad_b: 0xFF, pause: false }
    }
}

/// A byte written to the sound chip, with the CPU cycle count at which it
/// was written.
#[derive(Clone, Copy, Debug, PartialEq, Eq, Structural)]
pub struct SoundWrite {
    pub cycles: u64,
    pub value: u8,
}

/// Options for a new session.
#[derive(Clone, Copy, Debug, PartialEq, Eq, Structural)]
pub struct SmsOptions {
    pub tv_system: TvSystem,
    /// The CPU clock to keep pace with, in Hz; `None` runs unthrottled.
    pub frequency: Option<u64>,
}

/// Why a session could not be created.
#[derive(Clone, Copy, Debug, PartialEq, Eq, Structural)]
pub enum SmsCreationError {
    /// The ROM image has a bad length.
    RomError(MemoryMapError),
    /// A saved state is malformed: its video RAM is not 16 KiB, its
    /// vertical counter is past the last line of its TV system, or its mapper
    /// tag disagrees with its memory.
    MemoryLoadError,
}

/// A snapshot of everything a session emulates, from which an identical
/// session can be rebuilt.
pub struct SmsState {
    pub z80: Z80State,
    pub vdp: Vdp,
    pub mem: SmsMemory,
    pub player_input: PlayerStatus,
    pub memory_mapper_type: MemoryMapperType,
    pub irq_state: bool,
}

/// The real-time reference of a session: a host time, in nanoseconds on a
/// monotonic clock whose origin the host picks, paired with the CPU cycle
/// count at that time.
#[derive(Clone, Copy, Debug, PartialEq, Eq, Structural)]
pub struct TimeStatus {
    pub start_time: u64,
    pub start_cycles: u64,
    /// Clock frequency in Hz.
    pub frequency: Option<u64>,
    pub holding: bool,
}

impl TimeStatus {
    pub fn new(start_cycles: u64, frequency: Option<u64>, start_time: u64) -> (r: TimeStatus)
        ensures
            r == (TimeStatus { start_time, start_cycles, frequency, holding: false }),
    {
        TimeStatus { start_cycles, start_time, frequency, holding: false }
    }

    /// The host time at which the emulation reaches `cycles` when it keeps
    /// pace with the clock.
    pub open spec fn due_time(self, cycles: u64, frequency: u64) -> int {
        self.start_time + (cycles - self.start_cycles) * 1_000_000_000 / frequency as int
    }

    /// How long, in nanoseconds, to wait at host time `now` so that the
    /// emulation, having run to `cycles`, does not run ahead of the clock.
    /// Without a frequency, or when behind, there is no wait.
    pub fn time_to_wait(&self, cycles: u64, now: u64) -> (r: u64)
        requires
            cycles >= self.start_cycles,
        ensures
            self.frequency is None ==> r == 0,
            self.frequency matches Some(f) ==> (f == 0 ==> r == 0) && (f > 0 ==> r == if self.due_time(
                cycles,
                f,
            ) > now {
                if self.due_time(cycles, f) - now > u64::MAX {
                    u64::MAX as int
                } else {
                    self.due_time(cycles, f) - now
                }
            } else {
                0
            }),
    {
        match self.frequency {
            None => 0,
            Some(f) => {
                if f == 0 {
                    return 0;
                }
                let elapsed = (cycles - self.start_cycles) as u128;
                proof {
                    assert(elapsed * 1_000_000_000 <= u64::MAX as int * 1_000_000_000) by (nonlinear_arith)
                        requires
                            elapsed <= u64::MAX,
                    ;
                }
                let due = self.start_time as u128 + elapsed * 1_000_000_000 / f as u128;
                if due > now as u128 {
                    let d = due - now as u128;
                    if d > u64::MAX as u128 {
                        u64::MAX
                    } else {
                        d as u64
                    }
                } else {
                    0
                }
            },
        }
    }
}

/// Requests that a debugger or the user can make of a session.
#[derive(Clone, Copy, Debug, PartialEq, Eq, Structural)]
pub enum Command {
    Hold,
    Resume,
    Step,
    BreakAtPc(u16),
    RemovePcBreakpoints,
}

#[derive(Clone, Copy, Debug, PartialEq, Eq, Structural)]
pub enum CommandResult {
    Accepted,
    Unsupported,
}

#[derive(Clone, Copy, Debug, PartialEq, Eq, Structural)]
pub enum Query {
    Disassemble(u16),
    RecentMemos,
}

#[derive(Clone, Debug, PartialEq, Eq)]
pub enum QueryResult {
    Answer(String),
    Unsupported,
}

/// A debugger that only holds and resumes.
#[derive(Clone, Copy, Debug, PartialEq, Eq, Structural)]
pub struct HoldingDebugger;

impl HoldingDebugger {
    pub fn new() -> (r: HoldingDebugger) {
        HoldingDebugger
    }

    /// `Hold` stops the session at the next frame boundary; `Resume` lets it
    /// go again, re-anchoring the real-time reference to host time `now` and
    /// the CPU's cycle count `cycles`. Other commands are unsupported.
    pub fn command(&self, time_status: &mut TimeStatus, command: Command, now: u64, cycles: u64) -> (r: CommandResult)
        ensures
            command == Command::Hold ==> r == CommandResult::Accepted && *final(time_status) == (TimeStatus {
                holding: true,
                ..*old(time_status)
            }),
            command == Command::Resume && old(time_status).holding ==> r == CommandResult::Accepted
                && *final(time_status) == (TimeStatus {
                holding: false,
                start_time: now,
                start_cycles: cycles,
                ..*old(time_status)
            }),
            !(command == Command::Hold || (command == Command::Resume && old(time_status).holding))
                ==> r == CommandResult::Unsupported && *final(time_status) == *old(time_status),
    {
        match command {
            Command::Hold => {
                time_status.holding = true;
                CommandResult::Accepted
            },
            Command::Resume => if time_status.holding {
                time_status.holding = false;
                time_status.start_time = now;
                time_status.start_cycles = cycles;
                CommandResult::Accepted
            } else {
                CommandResult::Unsupported
            },
            _ => CommandResult::Unsupported,
        }
    }

    /// Queries are unsupported.
    pub fn query(&self, query: Query) -> (r: QueryResult)
        ensures
            r == QueryResult::Unsupported,
    {
        QueryResult::Unsupported
    }
}

/// The CPU after `in r, (c)` read `v`: the register, if any, takes it, and
/// S, Z and P/V follow it; H and N are cleared and C kept.
pub open spec fn in_c_z80(z: Z80View, r: Option<Reg8>, v: u8) -> Z80View {
    let z1 = match r {
        Some(r) => z.set8(r, v),
        None => z,
    };
    z1.set8(
        Reg8::F,
        crate::alu::spec_flags(v >= 0x80, v == 0, false, crate::alu::spec_parity_even(v), false, z1.f() & CF != 0),
    )
}

pub open spec fn block_is_input(op: BlockIo) -> bool {
    op == BlockIo::Ini || op == BlockIo::Ind || op == BlockIo::Inir || op == BlockIo::Indr
}

/// The CPU after one run of a block I/O instruction: B counts down, HL
/// steps, Z tells whether B reached zero and N is set; a repeating form not
/// yet done runs again, for 5 more cycles.
pub open spec fn block_io_z80(z: Z80View, op: BlockIo) -> Z80View {
    let down = op == BlockIo::Ind || op == BlockIo::Indr || op == BlockIo::Outd || op == BlockIo::Otdr;
    let repeats = op == BlockIo::Inir || op == BlockIo::Indr || op == BlockIo::Otir || op
        == BlockIo::Otdr;
    let hl = z.reg16(Reg16::HL);
    let b = ((z.reg8(Reg8::B) + 255) % 256) as u8;
    let z1 = z.set8(Reg8::B, b).set16(
        Reg16::HL,
        if down { hl.wrapping_sub(1) } else { hl.wrapping_add(1) },
    );
    let z2 = z1.set8(Reg8::F, (z1.f() & CF) | NF | (if b == 0 { ZF } else { 0u8 }));
    if repeats && b != 0 {
        z2.set16(Reg16::PC, z2.pc().wrapping_sub(2)).add_cycles(5)
    } else {
        z2
    }
}

/// The device an I/O port reaches. The console decodes only bits 7, 6 and 0
/// of the port number.
pub open spec fn port_group(port: u8) -> u8 {
    port / 64
}

/// Drives a session frame by frame and counts the frames run.
pub struct EmulationManager {
    pub sms: Sms,
    pub frames: u64,
}

impl EmulationManager {
    pub fn new(sms: Sms) -> (r: EmulationManager)
        ensures
            r.sms == sms,
            r.frames == 0,
    {
        EmulationManager { sms, frames: 0 }
    }

    /// Runs one frame, unless the session is held.
    pub fn frame(&mut self)
        requires
            old(self).sms.wf(),
        ensures
            final(self).sms.wf(),
            old(self).sms.time_status.holding ==> *final(self) == *old(self),
            !old(self).sms.time_status.holding ==> final(self).frames == old(self).frames.saturating_add(
                1,
            ) && final(self).sms.vdp.v == 0 && final(self).sms.vdp.cycles == Sms::add_saturating(
                old(self).sms.vdp.cycles,
                342 * (old(self).sms.vdp.spec_total_lines() - old(self).sms.vdp.v),
            ) && final(self).sms.z80@.cycles >= Sms::cpu_target(final(self).sms.vdp.cycles)
                && final(self).sms.z80@.cycles >= old(self).sms.z80@.cycles && (forall|l: int|
                old(self).sms.vdp.v <= l < 192 ==> #[trigger] Sms::line_drawn(final(self).sms.frame@, l)),
    {
        if self.sms.time_status.holding {
            return;
        }
        self.sms.run_frame();
        self.frames = self.frames.saturating_add(1);
    }
}

/// A console session.
pub struct Sms {
    pub z80: Z80State,
    pub vdp: Vdp,
    pub mem: SmsMemory,
    pub player_input: PlayerStatus,
    /// Whether the pause button's non-maskable interrupt has been taken for
    /// the current press.
    pub irq_state: bool,
    /// Sound chip writes not yet handed to the synthesizer.
    pub sound_writes: Vec<SoundWrite>,
    pub time_status: TimeStatus,
    /// The picture: 256 palette colours for each line of the active display.
    pub frame: Vec<u8>,
}

impl Sms {
    pub open spec fn wf(&self) -> bool {
        &&& self.mem@.wf()
        &&& self.vdp.wf()
        &&& self.frame@.len() == LINE_WIDTH * FRAME_LINES
    }

    /// A session on a ROM image behind the mapper of kind `kind`, with the
    /// CPU, the VDP and the controls as at power-on and the stack pointer
    /// where the console's BIOS leaves it.
    pub fn from_rom(rom: &[u8], kind: MemoryMapperType, options: SmsOptions, now: u64) -> (r: Result<Sms, SmsCreationError>)
        requires
            rom@.len() <= MAX_ROM_LEN,
        ensures
            r is Ok <==> valid_rom_len(rom@.len()),
            r matches Err(SmsCreationError::RomError(e)) ==> e.rom_len == rom@.len(),
            r matches Ok(s) ==> {
                &&& s.wf()
                &&& s.mem@.rom() == rom@
                &&& s.memory_mapper_type() == kind
                &&& s.z80@.sp() == 0xDFEE
                &&& s.z80@.pc() == 0
                &&& s.z80@.cycles == 0
                &&& s.vdp.v == 0
                &&& s.vdp.tv_system == options.tv_system
                &&& s.time_status == (TimeStatus {
                    start_time: now,
                    start_cycles: 0,
                    frequency: options.frequency,
                    holding: false,
                })
            },
    {
        let mem = match SmsMemory::new(rom, kind) {
            Ok(m) => m,
            Err(e) => return Err(SmsCreationError::RomError(e)),
        };
        let mut z80 = Z80State::new();
        z80.set_reg16(Reg16::SP, 0xDFEE);
        proof {
            assert(z80@.pc() == 0);
        }
        Ok(Sms {
            z80,
            vdp: Vdp::new(options.tv_system),
            mem,
            player_input: PlayerStatus::new(),
            irq_state: false,
            sound_writes: Vec::new(),
            time_status: TimeStatus::new(0, options.frequency, now),
            frame: vec![0u8; LINE_WIDTH * FRAME_LINES],
        })
    }

    /// A snapshot of the session: a deep copy of the CPU, VDP and memory
    /// state, the controls and the pending-interrupt latch.
    pub fn state(&self) -> (r: SmsState)
        ensures
            r.z80 == self.z80,
            r.vdp == (Vdp { vram: r.vdp.vram, ..self.vdp }),
            r.vdp.vram@ == self.vdp.vram@,
            r.mem@ == self.mem@,
            r.mem.kind() == self.mem.kind(),
            r.player_input == self.player_input,
            r.memory_mapper_type == self.mem.kind(),
            r.irq_state == self.irq_state,
    {
        SmsState {
            z80: self.z80,
            vdp: self.vdp.deep_copy(),
            mem: self.mem.deep_copy(),
            player_input: self.player_input,
            memory_mapper_type: self.mem.kind(),
            irq_state: self.irq_state,
        }
    }

    /// Rebuilds a session from a snapshot. The real-time reference starts at
    /// host time `now` and the snapshot's cycle count; the picture starts
    /// black and no sound writes are pending.
    pub fn from_state(state: SmsState, frequency: Option<u64>, now: u64) -> (r: Result<Sms, SmsCreationError>)
        requires
            state.mem@.wf(),
        ensures
            r is Ok <==> state.vdp.wf() && state.memory_mapper_type == state.mem.kind(),
            r is Err ==> r == Err::<Sms, SmsCreationError>(SmsCreationError::MemoryLoadError),
            r matches Ok(s) ==> {
                &&& s.wf()
                &&& s.z80 == state.z80
                &&& s.vdp == state.vdp
                &&& s.mem == state.mem
                &&& s.player_input == state.player_input
                &&& s.irq_state == state.irq_state
                &&& s.time_status == (TimeStatus {
                    start_time: now,
                    start_cycles: state.z80@.cycles,
                    frequency,
                    holding: false,
                })
            },
    {
        if state.vdp.vram.len() != crate::vdp::VRAM_SIZE || state.vdp.v >= state.vdp.total_lines()
            || state.memory_mapper_type != state.mem.kind() {
            return Err(SmsCreationError::MemoryLoadError);
        }
        let start_cycles = state.z80.cycles();
        Ok(Sms {
            z80: state.z80,
            vdp: state.vdp,
            mem: state.mem,
            player_input: state.player_input,
            irq_state: state.irq_state,
            sound_writes: Vec::new(),
            time_status: TimeStatus::new(start_cycles, frequency, now),
            frame: vec![0u8; LINE_WIDTH * FRAME_LINES],
        })
    }

    pub open spec fn spec_memory_mapper_type(&self) -> MemoryMapperType {
        self.mem.spec_kind()
    }

    #[verifier::when_used_as_spec(spec_memory_mapper_type)]
    pub fn memory_mapper_type(&self) -> (r: MemoryMapperType)
        ensures
            r == self.spec_memory_mapper_type(),
    {
        self.mem.kind()
    }

    /// What a read of I/O port `port` returns: nothing drives the lowest
    /// quarter of the ports, then come the VDP's vertical and horizontal
    /// counters, its data and control ports, and the two joypad ports.
    pub open spec fn port_value(&self, port: u8) -> u8 {
        let group = port_group(port);
        if group == 0 {
            0xFF
        } else if group == 1 {
            if port % 2 == 0 {
                self.vdp.v_counter()
            } else {
                (self.vdp.h / 2 % 256) as u8
            }
        } else if group == 2 {
            if port % 2 == 0 {
                self.vdp.read_buffer
            } else {
                self.vdp.status_flags
            }
        } else if port % 2 == 0 {
            self.player_input.joypad_a
        } else {
            self.player_input.joypad_b
        }
    }

    /// A byte read from I/O port `port`. Reading the VDP's ports has the
    /// effects that `Vdp::read_data` and `Vdp::read_control` describe.
    pub fn io_read(&mut self, port: u8) -> (r: u8)
        requires
            old(self).wf(),
        ensures
            final(self).vdp.same_timing(old(self).vdp),
            final(self).frame == old(self).frame,
            r == old(self).port_value(port),
            final(self).wf(),
            final(self).z80 == old(self).z80,
            final(self).mem@ == old(self).mem@,
            final(self).mem.kind() == old(self).mem.kind(),
            final(self).vdp.v == old(self).vdp.v,
            final(self).vdp.cycles == old(self).vdp.cycles,
            final(self).vdp.tv_system == old(self).vdp.tv_system,
            port_group(port) != 2 ==> final(self).vdp == old(self).vdp,
    {
        let group = port / 64;
        if group == 0 {
            0xFF
        } else if group == 1 {
            if port % 2 == 0 {
                self.vdp.read_v()
            } else {
                self.vdp.read_h()
            }
        } else if group == 2 {
            if port % 2 == 0 {
                self.vdp.read_data()
            } else {
                self.vdp.read_control()
            }
        } else {
            if port % 2 == 0 {
                self.player_input.joypad_a
            } else {
                self.player_input.joypad_b
            }
        }
    }

    /// A byte written to I/O port `port`: to the sound chip, to the VDP's data
    /// or control port, or nowhere.
    pub fn io_write(&mut self, port: u8, value: u8)
        requires
            old(self).wf(),
        ensures
            final(self).vdp.same_timing(old(self).vdp),
            final(self).frame == old(self).frame,
            final(self).wf(),
            final(self).z80 == old(self).z80,
            final(self).mem@ == old(self).mem@,
            final(self).mem.kind() == old(self).mem.kind(),
            final(self).vdp.v == old(self).vdp.v,
            final(self).vdp.cycles == old(self).vdp.cycles,
            final(self).vdp.tv_system == old(self).vdp.tv_system,
            port_group(port) == 1 ==> final(self).sound_writes@ == old(self).sound_writes@.push(
                SoundWrite { cycles: old(self).z80@.cycles, value },
            ),
            port_group(port) != 1 ==> final(self).sound_writes == old(self).sound_writes,
            port_group(port) != 2 ==> final(self).vdp == old(self).vdp,
    {
        let group = port / 64;
        if group == 1 {
            self.sound_writes.push(SoundWrite { cycles: self.z80.cycles(), value });
        } else if group == 2 {
            if port % 2 == 0 {
                self.vdp.write_data(value)
            } else {
                self.vdp.write_control(value)
            }
        }
    }

    /// Performs an instruction that uses an I/O port. The block instructions
    /// that repeat charge 5 more cycles for each run that is not the last.
    fn execute_io(&mut self, instr: Instr)
        requires
            old(self).wf(),
            instr.spec_is_io(),
        ensures
            final(self).vdp.same_timing(old(self).vdp),
            final(self).frame == old(self).frame,
            final(self).wf(),
            final(self).z80@.cycles >= old(self).z80@.cycles,
            final(self).mem.kind() == old(self).mem.kind(),
            final(self).vdp.v == old(self).vdp.v,
            final(self).vdp.cycles == old(self).vdp.cycles,
            final(self).vdp.tv_system == old(self).vdp.tv_system,
            instr matches Instr::InImm(n) ==> final(self).z80@ == old(self).z80@.set8(
                Reg8::A,
                old(self).port_value(n),
            ) && final(self).mem@ == old(self).mem@,
            (instr is OutImm || instr is OutC) ==> final(self).z80@ == old(self).z80@
                && final(self).mem@ == old(self).mem@,
            instr matches Instr::InC(r) ==> final(self).z80@ == in_c_z80(
                old(self).z80@,
                r,
                old(self).port_value(old(self).z80@.reg8(Reg8::C)),
            ) && final(self).mem@ == old(self).mem@,
            instr matches Instr::Block(op) ==> final(self).z80@ == block_io_z80(old(self).z80@, op)
                && final(self).mem@ == if block_is_input(op) {
                old(self).mem@.write(
                    old(self).z80@.reg16(Reg16::HL),
                    old(self).port_value(old(self).z80@.reg8(Reg8::C)),
                )
            } else {
                old(self).mem@
            },
    {
        match instr {
            Instr::InImm(n) => {
                let v = self.io_read(n);
                self.z80.set_reg8(Reg8::A, v);
            },
            Instr::InC(r) => {
                let port = self.z80.reg8(Reg8::C);
                let v = self.io_read(port);
                if let Some(r) = r {
                    self.z80.set_reg8(r, v);
                }
                let f = self.z80.reg8(Reg8::F);
                self.z80.set_reg8(
                    Reg8::F,
                    flags(v >= 0x80, v == 0, false, parity_even(v), false, f & CF != 0),
                );
            },
            Instr::OutImm(n) => {
                let a = self.z80.reg8(Reg8::A);
                self.io_write(n, a);
            },
            Instr::OutC(r) => {
                let port = self.z80.reg8(Reg8::C);
                let v = match r {
                    Some(r) => self.z80.reg8(r),
                    None => 0,
                };
                self.io_write(port, v);
            },
            Instr::Block(op) => {
                let input = op == BlockIo::Ini || op == BlockIo::Ind || op == BlockIo::Inir || op
                    == BlockIo::Indr;
                let down = op == BlockIo::Ind || op == BlockIo::Indr || op == BlockIo::Outd || op
                    == BlockIo::Otdr;
                let repeats = op == BlockIo::Inir || op == BlockIo::Indr || op == BlockIo::Otir || op
                    == BlockIo::Otdr;
                let port = self.z80.reg8(Reg8::C);
                let hl = self.z80.reg16(Reg16::HL);
                if input {
                    let v = self.io_read(port);
                    self.mem.write(hl, v);
                } else {
                    let v = self.mem.read(hl);
                    self.io_write(port, v);
                }
                let b = ((self.z80.reg8(Reg8::B) as u16 + 255) % 256) as u8;
                self.z80.set_reg8(Reg8::B, b);
                self.z80.set_reg16(Reg16::HL, if down { hl.wrapping_sub(1) } else { hl.wrapping_add(1) });
                let f = self.z80.reg8(Reg8::F);
                self.z80.set_reg8(Reg8::F, (f & CF) | NF | (if b == 0 { ZF } else { 0u8 }));
                if repeats && b != 0 {
                    let pc = self.z80.reg16(Reg16::PC);
                    self.z80.set_reg16(Reg16::PC, pc.wrapping_sub(2));
                    self.z80.inc_cycles(5);
                }
            },
            _ => {},
        }
    }

    /// The CPU and memory after `check_interrupts`.
    pub open spec fn after_interrupts(&self) -> (Z80View, MemState) {
        if self.player_input.pause && !self.irq_state {
            crate::interrupts::nmi_spec(self.z80@, self.mem@)
        } else if self.vdp.spec_requesting_mi() && self.z80@.iff1 {
            crate::interrupts::mi_spec(self.z80@, self.mem@, 0xFF)->Some_0
        } else {
            (self.z80@, self.mem@)
        }
    }

    /// The CPU once instruction `d` is fetched: the program counter past it,
    /// the low seven bits of the refresh register counted up, the base cost
    /// charged.
    pub open spec fn fetched(z: Z80View, d: Decoded) -> Z80View {
        let r = z.reg8(Reg8::R);
        z.set16(Reg16::PC, z.pc().wrapping_add(d.len)).set8(
            Reg8::R,
            ((r / 128) * 128 + (r % 128 + 1) % 128) as u8,
        ).add_cycles(d.cycles)
    }

    /// Takes a pending interrupt, if any, at this instruction boundary.
    ///
    /// Pressing pause raises a non-maskable interrupt once per press. The
    /// VDP's interrupt line raises a maskable one, which IFF1 may keep out;
    /// nothing drives the data bus, so it reads 0xFF.
    pub fn check_interrupts(&mut self)
        requires
            old(self).wf(),
        ensures
            final(self).vdp.same_timing(old(self).vdp),
            final(self).frame == old(self).frame,
            final(self).wf(),
            final(self).z80@.cycles >= old(self).z80@.cycles,
            final(self).mem.kind() == old(self).mem.kind(),
            final(self).vdp == old(self).vdp,
            final(self).player_input == old(self).player_input,
            old(self).player_input.pause && !old(self).irq_state ==> (final(self).z80@,
                final(self).mem@) == crate::interrupts::nmi_spec(old(self).z80@, old(self).mem@),
            !(old(self).player_input.pause && !old(self).irq_state) && old(self).vdp.spec_requesting_mi()
                && old(self).z80@.iff1 ==> (final(self).z80@, final(self).mem@)
                == crate::interrupts::mi_spec(old(self).z80@, old(self).mem@, 0xFF)->Some_0,
            !(old(self).player_input.pause && !old(self).irq_state) && !(
            old(self).vdp.spec_requesting_mi() && old(self).z80@.iff1) ==> final(self).z80@
                == old(self).z80@ && final(self).mem@ == old(self).mem@,
    {
        if self.player_input.pause && !self.irq_state {
            self.irq_state = true;
            nonmaskable_interrupt(&mut self.z80, &mut self.mem);
        } else {
            if !self.player_input.pause {
                self.irq_state = false;
            }
            if self.vdp.requesting_mi() {
                maskable_interrupt(&mut self.z80, &mut self.mem, 0xFF);
            }
        }
    }

    /// Runs one instruction, after taking any pending interrupt, and returns
    /// it. A halted CPU idles for 4 cycles instead, and `None` is returned.
    ///
    /// The instruction at the program counter is decoded, the program counter
    /// moved past it, the refresh register's low seven bits counted up, its
    /// base cost charged, and it is performed.
    #[verifier::rlimit(60)]
    pub fn step(&mut self) -> (r: Option<Decoded>)
        requires
            old(self).wf(),
        ensures
            ({
                let (z, m) = old(self).after_interrupts();
                &&& r is None <==> z.halted
                &&& r is None ==> final(self).z80@ == z.add_cycles(4) && final(self).mem@ == m
                &&& r is Some ==> decodes_as(m, z.pc(), r->Some_0) && 1 <= r->Some_0.len <= 4
                &&& r is Some && !r->Some_0.instr.spec_is_io() ==> (final(self).z80@,
                    final(self).mem@) == exec_spec(Self::fetched(z, r->Some_0), m, r->Some_0.instr)
                &&& r is Some && r->Some_0.instr is InImm ==> final(self).z80@ == Self::fetched(
                    z,
                    r->Some_0,
                ).set8(Reg8::A, old(self).port_value(r->Some_0.instr->InImm_0))
                    && final(self).mem@ == m
                &&& r is Some && (r->Some_0.instr is OutImm || r->Some_0.instr is OutC)
                    ==> final(self).z80@ == Self::fetched(z, r->Some_0) && final(self).mem@ == m
                &&& r is Some && r->Some_0.instr is InC ==> final(self).z80@ == in_c_z80(
                    Self::fetched(z, r->Some_0),
                    r->Some_0.instr->InC_0,
                    old(self).port_value(z.reg8(Reg8::C)),
                ) && final(self).mem@ == m
                &&& r is Some && r->Some_0.instr is Block ==> final(self).z80@ == block_io_z80(
                    Self::fetched(z, r->Some_0),
                    r->Some_0.instr->Block_0,
                ) && final(self).mem@ == if block_is_input(r->Some_0.instr->Block_0) {
                    m.write(z.reg16(Reg16::HL), old(self).port_value(z.reg8(Reg8::C)))
                } else {
                    m
                }
            }),
            final(self).vdp.same_timing(old(self).vdp),
            final(self).frame == old(self).frame,
            final(self).wf(),
            final(self).z80@.cycles >= old(self).z80@.cycles + 4 || final(self).z80@.cycles
                == u64::MAX,
            final(self).mem.kind() == old(self).mem.kind(),
            final(self).vdp.v == old(self).vdp.v,
            final(self).vdp.cycles == old(self).vdp.cycles,
            final(self).vdp.tv_system == old(self).vdp.tv_system,
    {
        self.check_interrupts();
        let ghost z0 = self.z80@;
        let ghost m0 = self.mem@;
        proof {
            self.z80.lemma_wf();
        }
        assert((z0, m0) == old(self).after_interrupts());
        if self.z80.halted() {
            self.z80.inc_cycles(4);
            return None;
        }
        let pc = self.z80.reg16(Reg16::PC);
        let d = decode(&self.mem, pc);
        let r = self.z80.reg8(Reg8::R);
        self.z80.set_reg16(Reg16::PC, pc.wrapping_add(d.len));
        let r2 = (r / 128) * 128 + (r % 128 + 1) % 128;
        assert(r2 == ((r / 128) * 128 + (r % 128 + 1) % 128) as u8);
        self.z80.set_reg8(Reg8::R, r2);
        self.z80.inc_cycles(d.cycles);
        assert(self.z80@ == Self::fetched(z0, d));
        assert(z0.regs.len() == 18);
        if d.instr.is_io() {
            assert(forall|p: u8| self.port_value(p) == old(self).port_value(p));
            assert(self.z80@.reg8(Reg8::C) == z0.reg8(Reg8::C));
            assert(self.z80@.reg16(Reg16::HL) == z0.reg16(Reg16::HL));
            self.execute_io(d.instr);
        } else {
            proof {
                lemma_exec_cycles(self.z80@, self.mem@, d.instr);
            }
            execute(&mut self.z80, &mut self.mem, d.instr);
        }
        Some(d)
    }

    /// The CPU cycle count that keeps pace with `vdp_cycles` VDP cycles: two
    /// CPU cycles for every three of the VDP.
    pub open spec fn cpu_target(vdp_cycles: u64) -> int {
        2 * vdp_cycles / 3
    }

    /// The VDP once its current line is done: drawn if it is in the active
    /// display, then stepped.
    pub open spec fn line_done(vdp: Vdp) -> Vdp {
        if vdp.v < vdp.spec_active_lines() {
            drawn(vdp, vdp.v as int).stepped()
        } else {
            vdp.stepped()
        }
    }

    /// Whether line `l` of `frame` holds what drawing it from some VDP state
    /// gives.
    pub open spec fn line_drawn(frame: Seq<u8>, l: int) -> bool {
        exists|w: Vdp|
            w.v == l && forall|x: int| 0 <= x < 256 ==> #[trigger] frame[l * 256 + x] == line_pixel(w, l, x)
    }

    /// Draws the current scanline if it is in the active display, then
    /// finishes it on the VDP.
    pub fn draw_and_finish_line(&mut self)
        requires
            old(self).wf(),
        ensures
            final(self).wf(),
            final(self).vdp == Self::line_done(old(self).vdp),
            final(self).z80 == old(self).z80,
            final(self).mem == old(self).mem,
            final(self).frame@.len() == old(self).frame@.len(),
            forall|i: int|
                0 <= i < final(self).frame@.len() && !(old(self).vdp.v < old(self).vdp.spec_active_lines()
                    && old(self).vdp.v * 256 <= i < old(self).vdp.v * 256 + 256) ==> final(self).frame@[i]
                    == old(self).frame@[i],
            old(self).vdp.v < old(self).vdp.spec_active_lines() ==> forall|x: int|
                0 <= x < 256 ==> #[trigger] final(self).frame@[old(self).vdp.v * 256 + x] == line_pixel(
                    old(self).vdp,
                    old(self).vdp.v as int,
                    x,
                ),
    {
        let v = self.vdp.v;
        if v < self.vdp.active_lines() {
            draw_line(&mut self.vdp, &mut self.frame, v);
            proof {
                assert forall|x: int| 0 <= x < 256 implies #[trigger] self.frame@[v * 256 + x]
                    == line_pixel(old(self).vdp, v as int, x) by {
                    assert(v * 256 <= v * 256 + x < v * 256 + 256);
                }
            }
        }
        self.vdp.finish_line();
    }

    /// Runs the CPU until its cycle count reaches two thirds of the VDP's.
    pub fn catch_up(&mut self)
        requires
            old(self).wf(),
        ensures
            final(self).wf(),
            final(self).vdp.same_timing(old(self).vdp),
            final(self).frame == old(self).frame,
            final(self).z80@.cycles >= Self::cpu_target(final(self).vdp.cycles),
            final(self).z80@.cycles >= old(self).z80@.cycles,
            final(self).mem.kind() == old(self).mem.kind(),
    {
        let vdp_cycles = self.vdp.cycles;
        let target = (vdp_cycles / 3) * 2 + ((vdp_cycles % 3) * 2) / 3;
        proof {
            assert(target == Self::cpu_target(vdp_cycles)) by (nonlinear_arith)
                requires
                    target == (vdp_cycles / 3) * 2 + ((vdp_cycles % 3) * 2) / 3,
            {
                vstd::arithmetic::div_mod::lemma_fundamental_div_mod(vdp_cycles as int, 3);
            }
        }
        let ghost vdp0 = self.vdp;
        let ghost frame0 = self.frame;
        while self.z80.cycles() < target
            invariant
                self.wf(),
                self.vdp.same_timing(vdp0),
                vdp0 == old(self).vdp,
                self.frame == frame0,
                frame0 == old(self).frame,
                self.mem.kind() == old(self).mem.kind(),
                self.z80@.cycles >= old(self).z80@.cycles,
            ensures
                self.z80@.cycles >= old(self).z80@.cycles,
                self.wf(),
                self.vdp.same_timing(vdp0),
                self.frame == frame0,
                self.mem.kind() == old(self).mem.kind(),
                self.z80@.cycles >= target,
            decreases target - self.z80@.cycles,
        {
            let ghost before = self.z80@.cycles;
            self.step();
            assert(self.z80@.cycles > before);
            if self.z80.cycles() >= target {
                break;
            }
        }
    }

    /// Draws the current scanline if it is in the active display, finishes
    /// it, and then runs the CPU until it has caught up with the VDP. Says
    /// whether the line completed a frame.
    ///
    /// The line's effects on the VDP are those of `draw_and_finish_line`.
    /// Those the CPU cannot undo are stated here: the counters, the line
    /// counter, the latched scroll, the cycle count and the drawn line. The
    /// CPU may still read the control port and so clear the status flags.
    pub fn run_line(&mut self) -> (frame_done: bool)
        requires
            old(self).wf(),
        ensures
            final(self).wf(),
            final(self).vdp.same_timing(Self::line_done(old(self).vdp)),
            final(self).z80@.cycles >= Self::cpu_target(final(self).vdp.cycles),
            final(self).z80@.cycles >= old(self).z80@.cycles,
            final(self).mem.kind() == old(self).mem.kind(),
            frame_done == (final(self).vdp.v == 0),
            final(self).frame@.len() == old(self).frame@.len(),
            forall|i: int|
                0 <= i < final(self).frame@.len() && !(old(self).vdp.v < old(self).vdp.spec_active_lines()
                    && old(self).vdp.v * 256 <= i < old(self).vdp.v * 256 + 256) ==> final(self).frame@[i]
                    == old(self).frame@[i],
            old(self).vdp.v < old(self).vdp.spec_active_lines() ==> forall|x: int|
                0 <= x < 256 ==> #[trigger] final(self).frame@[old(self).vdp.v * 256 + x] == line_pixel(
                    old(self).vdp,
                    old(self).vdp.v as int,
                    x,
                ),
    {
        self.draw_and_finish_line();
        self.catch_up();
        self.vdp.v == 0
    }

    /// The cycle count `c` advanced by `n`, saturating.
    pub open spec fn add_saturating(c: u64, n: int) -> u64 {
        if c + n > u64::MAX { u64::MAX } else { (c + n) as u64 }
    }

    /// Runs the session to the end of the current frame: scanline after
    /// scanline, the CPU kept in step, until the vertical counter wraps to 0.
    /// Exactly the lines left in the frame are stepped, 342 VDP cycles each,
    /// and the first 192 lines, which every display mode shows, are drawn
    /// from here on.
    pub fn run_frame(&mut self)
        requires
            old(self).wf(),
        ensures
            final(self).wf(),
            final(self).vdp.v == 0,
            final(self).vdp.tv_system == old(self).vdp.tv_system,
            final(self).vdp.cycles == Self::add_saturating(
                old(self).vdp.cycles,
                342 * (old(self).vdp.spec_total_lines() - old(self).vdp.v),
            ),
            final(self).z80@.cycles >= Self::cpu_target(final(self).vdp.cycles),
            final(self).z80@.cycles >= old(self).z80@.cycles,
            final(self).mem.kind() == old(self).mem.kind(),
            forall|l: int| old(self).vdp.v <= l < 192 ==> #[trigger] Self::line_drawn(final(self).frame@, l),
    {
        let total = self.vdp.total_lines();
        let v0 = self.vdp.v;
        let needed = total - v0;
        let ghost c0 = self.vdp.cycles;
        let mut k: u16 = 0;
        while k < needed
            invariant
                self.wf(),
                self.vdp.tv_system == old(self).vdp.tv_system,
                self.mem.kind() == old(self).mem.kind(),
                total == self.vdp.spec_total_lines(),
                total == old(self).vdp.spec_total_lines(),
                v0 == old(self).vdp.v,
                c0 == old(self).vdp.cycles,
                needed == total - v0,
                k <= needed,
                k < needed ==> self.vdp.v == v0 + k,
                k == needed ==> self.vdp.v == 0,
                self.vdp.cycles == Self::add_saturating(c0, 342 * k),
                k > 0 ==> self.z80@.cycles >= Self::cpu_target(self.vdp.cycles),
                self.z80@.cycles >= old(self).z80@.cycles,
                forall|l: int| v0 <= l < v0 + k && l < 192 ==> #[trigger] Self::line_drawn(self.frame@, l),
            decreases needed - k,
        {
            let ghost f0 = self.frame@;
            let ghost w = self.vdp;
            self.run_line();
            proof {
                assert forall|l: int| v0 <= l < v0 + k + 1 && l < 192 implies #[trigger] Self::line_drawn(
                    self.frame@,
                    l,
                ) by {
                    if l == v0 + k {
                        assert(w.spec_active_lines() >= 192);
                        assert forall|x: int| 0 <= x < 256 implies #[trigger] self.frame@[l * 256 + x]
                            == line_pixel(w, l, x) by {}
                    } else {
                        assert(Self::line_drawn(f0, l));
                        let u = choose|u: Vdp|
                            u.v == l && forall|x: int| 0 <= x < 256 ==> #[trigger] f0[l * 256 + x] == line_pixel(u, l, x);
                        assert forall|x: int| 0 <= x < 256 implies #[trigger] self.frame@[l * 256 + x]
                            == line_pixel(u, l, x) by {
                            assert(f0[l * 256 + x] == line_pixel(u, l, x));
                            assert(l * 256 + x < l * 256 + 256);
                            assert(!(w.v * 256 <= l * 256 + x < w.v * 256 + 256)) by (nonlinear_arith)
                                requires
                                    w.v != l,
                                    0 <= x < 256,
                            ;
                        }
                    }
                }
            }
            k = k + 1;
        }
    }
}

} // verus!
