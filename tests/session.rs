use attalus::mapper::MemoryMapperType;
use attalus::recording::{PlaybackStatus, RecordingStatus};
use attalus::render::vdp_color_to_simple_color;
use attalus::sms::{
    Command, CommandResult, EmulationManager, HoldingDebugger, PlayerStatus, Query, QueryResult,
    Sms, SmsCreationError, SmsOptions, TimeStatus,
};
use attalus::memory::MemoryMapError;
use attalus::vdp::{TvSystem, Vdp, FRAME_INTERRUPT_FLAG};
use attalus::z80::Reg16;

fn ntsc() -> SmsOptions {
    SmsOptions { tv_system: TvSystem::Ntsc, frequency: None }
}

#[test]
fn frame_interrupt_once_per_frame() {
    let mut vdp = Vdp::new(TvSystem::Ntsc);
    vdp.v = 100;
    let mut raised = Vec::new();
    for i in 0..262 {
        vdp.status_flags = 0;
        vdp.finish_line();
        if vdp.status_flags & FRAME_INTERRUPT_FLAG != 0 {
            raised.push(i);
        }
    }
    assert_eq!(vdp.v, 100);
    assert_eq!(raised, vec![92]);
    assert_eq!(vdp.cycles, 262 * 342);
}

#[test]
fn pal_frame_has_313_lines() {
    let mut vdp = Vdp::new(TvSystem::Pal);
    for _ in 0..312 {
        vdp.finish_line();
    }
    assert_eq!(vdp.v, 312);
    vdp.finish_line();
    assert_eq!(vdp.v, 0);
}

#[test]
fn line_interrupt_reloads_counter() {
    let mut vdp = Vdp::new(TvSystem::Ntsc);
    vdp.registers[10] = 2;
    vdp.line_counter = 0;
    vdp.finish_line();
    assert!(vdp.line_interrupt_pending);
    assert_eq!(vdp.line_counter, 2);
}

#[test]
fn control_port_writes_register() {
    let mut vdp = Vdp::new(TvSystem::Ntsc);
    vdp.write_control(0x20);
    vdp.write_control(0x81);
    assert_eq!(vdp.registers[1], 0x20);
    vdp.write_control(0x00);
    vdp.write_control(0x40); // VRAM write at 0
    vdp.write_data(7);
    vdp.write_data(8);
    assert_eq!(vdp.vram[0], 7);
    assert_eq!(vdp.vram[1], 8);
    vdp.write_control(0x03);
    vdp.write_control(0xC0); // palette write at 3
    vdp.write_data(0x3F);
    assert_eq!(vdp.cram[3], 0x3F);
}

#[test]
fn status_read_clears_flags() {
    let mut vdp = Vdp::new(TvSystem::Ntsc);
    vdp.status_flags = 0xA0;
    assert_eq!(vdp.read_control(), 0xA0);
    assert_eq!(vdp.status_flags, 0);
}

#[test]
fn color_widening() {
    let c = vdp_color_to_simple_color(0b00_11_10_01);
    assert_eq!((c.red, c.green, c.blue), (64, 128, 192));
}

#[test]
fn session_rejects_bad_rom() {
    let r = Sms::from_rom(&[0u8; 0x3000], MemoryMapperType::Sega, ntsc(), 0);
    assert!(matches!(r, Err(SmsCreationError::RomError(MemoryMapError { rom_len: 0x3000 }))));
}

#[test]
fn session_runs_a_frame() {
    // di; loop: jr loop
    let mut rom = vec![0u8; 0x8000];
    rom[0] = 0xF3;
    rom[1] = 0x18;
    rom[2] = 0xFE;
    let sms = Sms::from_rom(&rom, MemoryMapperType::Sega, ntsc(), 0).unwrap();
    assert_eq!(sms.z80.reg16(Reg16::SP), 0xDFEE);
    let mut em = EmulationManager::new(sms);
    em.frame();
    assert_eq!(em.frames, 1);
    assert_eq!(em.sms.vdp.v, 0);
    assert!(em.sms.z80.cycles() >= 2 * em.sms.vdp.cycles / 3);
    assert_eq!(em.sms.vdp.cycles, 262 * 342);
    assert_eq!(em.sms.z80.reg16(Reg16::PC), 1);
}

#[test]
fn held_session_does_not_run() {
    let rom = vec![0u8; 0x8000];
    let mut sms = Sms::from_rom(&rom, MemoryMapperType::Codemasters, ntsc(), 0).unwrap();
    let debugger = HoldingDebugger::new();
    assert_eq!(debugger.command(&mut sms.time_status, Command::Hold, 5, 0), CommandResult::Accepted);
    let mut em = EmulationManager::new(sms);
    em.frame();
    assert_eq!(em.frames, 0);
    assert_eq!(
        debugger.command(&mut em.sms.time_status, Command::Resume, 1000, 77),
        CommandResult::Accepted
    );
    assert_eq!(em.sms.time_status.start_time, 1000);
    assert_eq!(em.sms.time_status.start_cycles, 77);
    assert_eq!(
        debugger.command(&mut em.sms.time_status, Command::Step, 0, 0),
        CommandResult::Unsupported
    );
    assert_eq!(debugger.query(Query::RecentMemos), QueryResult::Unsupported);
}

#[test]
fn time_to_wait_keeps_pace() {
    let ts = TimeStatus::new(1000, Some(1_000_000), 5_000);
    // 1000 cycles at 1 MHz take 1 ms
    assert_eq!(ts.time_to_wait(2000, 5_000), 1_000_000);
    assert_eq!(ts.time_to_wait(2000, 2_000_000), 0);
    assert_eq!(TimeStatus::new(0, None, 0).time_to_wait(10, 0), 0);
}

#[test]
fn playback_in_recorded_order() {
    let a = PlayerStatus { joypad_a: 1, joypad_b: 2, pause: false };
    let b = PlayerStatus { joypad_a: 3, joypad_b: 4, pause: true };
    let mut p = PlaybackStatus::from_recorded(&[a, b]);
    assert_eq!(p.pop(), Some(a));
    assert_eq!(p.pop(), Some(b));
    assert_eq!(p.pop(), None);
    let mut q = PlaybackStatus::from_recorded(&[a]);
    q.end_playback();
    assert_eq!(q.pop(), None);
}

#[test]
fn recording_collects_inputs() {
    let mut r: RecordingStatus<u32> = RecordingStatus::new();
    r.update(PlayerStatus::new());
    assert!(r.recording().is_none());
    r.begin_recording(7);
    r.update(PlayerStatus::new());
    r.update(PlayerStatus::new());
    assert_eq!(r.recording().unwrap().player_statuses.len(), 2);
    assert_eq!(r.recording().unwrap().master_system, 7);
    r.end_recording();
    assert!(r.recording().is_none());
}

#[test]
fn snapshot_round_trip() {
    let mut rom = vec![0u8; 0x8000];
    rom[0] = 0x3E; // ld a,0x42
    rom[1] = 0x42;
    rom[2] = 0x18; // jr -2
    rom[3] = 0xFE;
    let mut sms = Sms::from_rom(&rom, MemoryMapperType::Sega, ntsc(), 0).unwrap();
    sms.run_frame();
    let state = sms.state();
    assert_eq!(state.memory_mapper_type, MemoryMapperType::Sega);
    let mut copy = Sms::from_state(state, None, 10).unwrap();
    assert_eq!(copy.z80, sms.z80);
    assert_eq!(copy.time_status.start_cycles, sms.z80.cycles());
    sms.run_frame();
    copy.run_frame();
    assert_eq!(copy.z80, sms.z80);
    assert_eq!(copy.vdp.cycles, sms.vdp.cycles);
}

#[test]
fn malformed_snapshot_is_rejected() {
    let rom = vec![0u8; 0x8000];
    let sms = Sms::from_rom(&rom, MemoryMapperType::Sega, ntsc(), 0).unwrap();
    let mut state = sms.state();
    state.vdp.v = 262;
    assert!(matches!(Sms::from_state(state, None, 0), Err(SmsCreationError::MemoryLoadError)));
    let mut state = sms.state();
    state.memory_mapper_type = MemoryMapperType::Codemasters;
    assert!(matches!(Sms::from_state(state, None, 0), Err(SmsCreationError::MemoryLoadError)));
}
