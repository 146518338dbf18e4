use attalus::codemasters::CodemastersMemoryMap;
use attalus::mapper::{MemoryMapperType, SmsMemory};
use attalus::memo::MemoLog;
use attalus::memory::{Memo, MemoryLocation, MemoryMapError};
use attalus::sega::{SegaMemoryMap, SegaMemoryMapRegister};

fn build_rom() -> [u8; 0x10000] {
    let mut rom = [0u8; 0x10000]; // 64 KiB (8 8KiB impl-pages or 4 16KiB sega-pages)
    rom[0x2000] = 1;
    rom[0x4000] = 2;
    rom[0x6000] = 3;
    rom[0x8000] = 4;
    rom[0xA000] = 5;
    rom[0xC000] = 6;
    rom[0xE000] = 7;
    rom
}

fn build_mmap() -> SegaMemoryMap {
    SegaMemoryMap::new(&build_rom()).unwrap()
}

#[test]
fn read() {
    let smm = &mut build_mmap();

    // read impl-slot 0
    assert!(smm.read(0) == 0);

    // read impl-slot 1
    assert!(smm.read(0x2000) == 1);

    // read impl-slot 2
    assert!(smm.read(0x4000) == 2);

    // read impl-slot 3
    assert!(smm.read(0x6000) == 3);

    // read impl-slot 4
    assert!(smm.read(0x8000) == 4);

    // read impl-slot 5
    assert!(smm.read(0xA000) == 5);

    // read impl-slot 6 (should be system memory)
    assert!(smm.read(0xC000) == 0);

    // read impl-slot 7 (should be system memory)
    assert!(smm.read(0xE000) == 0);
}

#[test]
fn reg_ffff() {
    let smm = &mut build_mmap();
    smm.write(0xFFFF, 3); // sega-slot 2 should now map to sega-page 3
    assert!(smm.read(0x8000) == 6);
    assert!(smm.read(0xA000) == 7);
    smm.write(0xFFFF, 0); // sega-slot 2 should now map to sega-page 0
    assert!(smm.read(0x8000) == 0);
    assert!(smm.read(0xA000) == 1);
}

#[test]
fn reg_fffe() {
    let smm = &mut build_mmap();
    smm.write(0xFFFE, 3); // sega-slot 1 should now map to sega-page 3
    assert!(smm.read(0x4000) == 6);
    assert!(smm.read(0x6000) == 7);
    smm.write(0xFFFE, 0); // sega-slot 1 should now map to sega-page 0
    assert!(smm.read(0x4000) == 0);
    assert!(smm.read(0x6000) == 1);
}

#[test]
fn reg_fffd() {
    let smm = &mut build_mmap();
    smm.write(0xFFFD, 1); // sega-slot 0 should now map to sega-page 1
    assert!(smm.read(0x0000) == 0); // except the first KiB
    assert!(smm.read(0x2000) == 3);
    smm.write(0xFFFD, 0); // sega-slot 0 should now map to sega-page 0
    assert!(smm.read(0x0000) == 0);
    assert!(smm.read(0x2000) == 1);
}

#[test]
fn reg_fffc() {
    let smm = &mut build_mmap();
    smm.write(0xFFFC, 0b1000); // sega-slot 2 mapped to sega-page 0 of cartridge RAM
    assert!(smm.read(0x8000) == 0);
    smm.write(0x8000, 102);
    assert!(smm.read(0x8000) == 102);

    smm.write(0xFFFC, 0); // sega-slot 2 mapped back to sega-page 2 of ROM
    assert!(smm.read(0x8000) == 4);
    smm.write(0, 17);
    assert!(smm.read(0x8000) == 4); // which should not be writable

    smm.write(0xFFFC, 0b1000); // back to sega-page 0 of cartridge RAM
    assert!(smm.read(0x8000) == 102);

    smm.write(0xFFFC, 0b1100); // to sega-page 1 of cartridge RAM
    assert!(smm.read(0x8000) == 0);
    smm.write(0x8000, 103);
    assert!(smm.read(0x8000) == 103);

    smm.write(0xFFFC, 0b1000); // back to sega-page 0 of cartridge RAM
    assert!(smm.read(0x8000) == 102);
}

#[test]
fn rom_size_must_be_positive_multiple_of_8k() {
    assert_eq!(SegaMemoryMap::new(&[]).err(), Some(MemoryMapError { rom_len: 0 }));
    assert_eq!(SegaMemoryMap::new(&[0u8; 0x2001]).err(), Some(MemoryMapError { rom_len: 0x2001 }));
    assert_eq!(
        CodemastersMemoryMap::new(&[0u8; 100]).err(),
        Some(MemoryMapError { rom_len: 100 })
    );
    assert!(SegaMemoryMap::new(&[0u8; 0x2000]).is_ok());
}

#[test]
fn boot_window_stays_on_first_rom_page() {
    let mut rom = build_rom();
    for i in 0..0x400 {
        rom[i] = (i % 251) as u8;
    }
    rom[0x4000 + 0x10] = 0xEE;
    let mut smm = SegaMemoryMap::new(&rom).unwrap();
    for n in 0..4u8 {
        smm.write(0xFFFD, n);
        for a in [0u16, 0x10, 0x3FF] {
            assert_eq!(smm.read(a), (a as usize % 251) as u8);
        }
    }
}

#[test]
fn bank_select_is_idempotent() {
    let mut once = build_mmap();
    let mut twice = build_mmap();
    once.write(0xFFFE, 3);
    twice.write(0xFFFE, 3);
    twice.write(0xFFFE, 3);
    for a in (0u16..0xC000).step_by(0x1000) {
        assert_eq!(once.read(a), twice.read(a));
    }
    assert_eq!(SegaMemoryMapRegister::FFFE.address(), 0xFFFE);
}

#[test]
fn selected_bank_is_value_modulo_bank_count() {
    let mut smm = build_mmap();
    // 4 banks: bank 6 is bank 2
    smm.write(0xFFFE, 6);
    assert_eq!(smm.read(0x4000), 4);
    smm.write(0xFFFF, 0x81);
    assert_eq!(smm.read(0xA000), 3);
    smm.write(0xFFFD, 7);
    assert_eq!(smm.read(0x2000), 7);
}

#[test]
fn bank_select_uses_low_seven_bits() {
    let mut rom = vec![0u8; 0xC000]; // three banks
    for bank in 0..3usize {
        rom[bank * 0x4000 + 0x10] = 0xA0 + bank as u8;
    }
    let mut smm = SegaMemoryMap::new(&rom).unwrap();
    smm.write(0xFFFE, 0x80); // low bits 0: bank 0
    assert_eq!(smm.read(0x4010), 0xA0);
    smm.write(0xFFFF, 0x85); // low bits 5: bank 2
    assert_eq!(smm.read(0x8010), 0xA2);
}

#[test]
fn cartridge_ram_survives_rom_switch() {
    let mut smm = build_mmap();
    smm.write(0xFFFC, 0b1100);
    smm.write(0xA123, 0x5A);
    smm.write(0xFFFC, 0);
    assert_eq!(smm.read(0xA123), 0);
    smm.write(0xFFFC, 0b1100);
    assert_eq!(smm.read(0xA123), 0x5A);
}

#[test]
fn rom_write_is_ignored_with_one_invalid_write_memo() {
    let mut smm = build_mmap();
    let mut log = MemoLog::new();
    let before = smm.read(0x4000);
    smm.write_noting(&mut log, 0x4000, 99);
    assert_eq!(smm.read(0x4000), before);
    assert_eq!(
        log.memos().clone(),
        vec![Memo::InvalidWrite {
            logical_address: 0x4000,
            value: 99,
            location: MemoryLocation::RomAddress(0x4000),
        }]
    );
}

#[test]
fn control_write_memos() {
    let mut smm = build_mmap();
    let mut log = MemoLog::new();
    smm.write_noting(&mut log, 0xFFFC, 0b1000);
    assert_eq!(
        log.memos().clone(),
        vec![
            Memo::RegisterWrite { register: 0xFFFC, value: 0b1000 },
            Memo::AllocateFirstPage,
            Memo::MapCartridgeRam { page: 0, slot: 2 },
            Memo::Write {
                logical_address: 0xFFFC,
                value: 0b1000,
                location: MemoryLocation::SystemRamAddress(0x1FFC),
            },
        ]
    );
    let mut log2 = MemoLog::new();
    assert_eq!(smm.read_noting(&mut log2, 0x8001), 0);
    assert_eq!(
        log2.memos().clone(),
        vec![Memo::Read {
            logical_address: 0x8001,
            value: 0,
            location: MemoryLocation::CartridgeRamAddress(1),
        }]
    );
}

#[test]
fn four_bank_rom_end_to_end() {
    let mut rom = vec![0u8; 0x10000];
    for bank in 0..4usize {
        rom[bank * 0x4000 + 0x0400] = 0xB0 + bank as u8;
        rom[bank * 0x4000 + 0x2000] = 0xC0 + bank as u8;
    }
    let mut mem = SmsMemory::new(&rom, MemoryMapperType::Sega).unwrap();
    mem.write(0xFFFD, 1);
    mem.write(0xFFFE, 2);
    assert_eq!(mem.read(0x0400), 0xB1);
    assert_eq!(mem.read(0x2000), 0xC1);
    assert_eq!(mem.read(0x4400), 0xB2);
    assert_eq!(mem.read(0x6000), 0xC2);
}

#[test]
fn codemasters_slots() {
    let rom = build_rom();
    let mut cmm = CodemastersMemoryMap::new(&rom).unwrap();
    assert_eq!(cmm.read(0x8000), 0);
    assert_eq!(cmm.read(0xA000), 1);
    cmm.write(0, 3); // first slot shows bank 3, including its first KiB
    assert_eq!(cmm.read(0), 6);
    assert_eq!(cmm.read(0x2000), 7);
    cmm.write(0x4000, 3);
    assert_eq!(cmm.read(0x4000), 6);
    assert_eq!(cmm.read(0x6000), 7);
    cmm.write(0x8000, 0);
    assert_eq!(cmm.read(0x8000), 0);
    assert_eq!(cmm.read(0xA000), 1);
}

#[test]
fn codemasters_ram_in_upper_half() {
    let rom = build_rom();
    let mut cmm = CodemastersMemoryMap::new(&rom).unwrap();
    cmm.write(0x8000, 0x81); // bank 1, RAM in the upper 8 KiB
    assert_eq!(cmm.read(0x8000), 2);
    assert_eq!(cmm.read(0xA000), 0);
    cmm.write(0xA010, 42);
    assert_eq!(cmm.read(0xA010), 42);
    cmm.write(0x8000, 1);
    assert_eq!(cmm.read(0xA000), 3);
    cmm.write(0xA010, 43); // ROM now: dropped
    cmm.write(0x8000, 0x81);
    assert_eq!(cmm.read(0xA010), 42);
}

#[test]
fn irregular_bank_count_is_flagged() {
    let rom = vec![0u8; 0xC000]; // three 16 KiB banks
    let mut smm = SegaMemoryMap::new(&rom).unwrap();
    let mut log = MemoLog::new();
    smm.write_noting(&mut log, 0xFFFE, 4); // bank 4 mod 3 = 1
    assert_eq!(
        log.memos()[..3].to_vec(),
        vec![
            Memo::RegisterWrite { register: 0xFFFE, value: 4 },
            Memo::BankCountNotPowerOfTwo { banks: 3 },
            Memo::MapRom { slot: 1, page: 1 },
        ]
    );
    let mut regular = build_mmap();
    let mut log2 = MemoLog::new();
    regular.write_noting(&mut log2, 0xFFFE, 4);
    assert_eq!(log2.memos()[1], Memo::MapRom { slot: 1, page: 0 });
}

#[test]
fn single_page_rom_is_mirrored() {
    let mut rom = vec![0u8; 0x2000];
    rom[0x1000] = 0x77;
    let mut smm = SegaMemoryMap::new(&rom).unwrap();
    for base in [0x0000u16, 0x2000, 0x4000, 0x6000, 0x8000, 0xA000] {
        assert_eq!(smm.read(base + 0x1000), 0x77);
    }
    smm.write(0xFFFF, 5);
    assert_eq!(smm.read(0x9000), 0x77);
}

#[test]
fn cartridge_ram_survives_bank_selects() {
    let mut smm = build_mmap();
    smm.write(0xFFFC, 0b1000);
    smm.write(0x9ABC, 0x77);
    smm.write(0xFFFC, 0);
    smm.write(0xFFFF, 3);
    smm.write(0xFFFD, 1);
    smm.write(0xFFFE, 2);
    assert_eq!(smm.read(0x8000), 6);
    smm.write(0xFFFC, 0b1000);
    assert_eq!(smm.read(0x9ABC), 0x77);
}
