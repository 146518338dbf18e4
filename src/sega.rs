//! The Sega memory mapper, used by the large majority of Master System
//! cartridges.
//!
//! Three ROM slots of 16 KiB are selected by the control registers at
//! 0xFFFD, 0xFFFE and 0xFFFF; the register at 0xFFFC can put one of two
//! 16 KiB banks of cartridge RAM in place of the third ROM slot. The first
//! KiB of the address space always shows the first KiB of ROM, so the boot
//! vectors survive any remapping. The top 16 KiB are the 8 KiB of system RAM,
//! mirrored.

use vstd::prelude::*;
use crate::memo::{Inbox, NothingInbox};
use crate::memory::{
    bank_count_memos, irregular_bank_count, flat_index, lemma_flat_index_in_bounds, load_rom_pages, push_zero_bytes, valid_rom_len,
    zero_bytes, Memo, MemoryLocation, MemoryMapError, MAX_ROM_LEN, PAGE_SIZE,
};

verus! {

/// The control registers of the Sega mapper.
#[derive(Clone, Copy, Debug, PartialEq, Eq, Structural)]
pub enum SegaMemoryMapRegister {
    FFFC,
    FFFD,
    FFFE,
    FFFF,
}

impl SegaMemoryMapRegister {
    pub open spec fn spec_address(self) -> u16 {
        match self {
            SegaMemoryMapRegister::FFFC => 0xFFFC,
            SegaMemoryMapRegister::FFFD => 0xFFFD,
            SegaMemoryMapRegister::FFFE => 0xFFFE,
            SegaMemoryMapRegister::FFFF => 0xFFFF,
        }
    }

    /// The logical address at which the register is written.
    #[verifier::when_used_as_spec(spec_address)]
    pub fn address(self) -> (r: u16)
        ensures
            r == self.spec_address(),
    {
        match self {
            SegaMemoryMapRegister::FFFC => 0xFFFC,
            SegaMemoryMapRegister::FFFD => 0xFFFD,
            SegaMemoryMapRegister::FFFE => 0xFFFE,
            SegaMemoryMapRegister::FFFF => 0xFFFF,
        }
    }

    /// The register written at `logical_address`, if any.
    pub fn from_address(logical_address: u16) -> (r: Option<SegaMemoryMapRegister>)
        ensures
            r matches Some(reg) ==> reg.address() == logical_address,
            r is None <==> logical_address < 0xFFFC,
    {
        if logical_address == 0xFFFC {
            Some(SegaMemoryMapRegister::FFFC)
        } else if logical_address == 0xFFFD {
            Some(SegaMemoryMapRegister::FFFD)
        } else if logical_address == 0xFFFE {
            Some(SegaMemoryMapRegister::FFFE)
        } else if logical_address == 0xFFFF {
            Some(SegaMemoryMapRegister::FFFF)
        } else {
            None
        }
    }
}

/// Whether bit `slot` of a writable-slot mask is set.
pub open spec fn slot_bit(mask: u8, slot: u8) -> bool {
    mask & (1u8 << slot) != 0
}

proof fn lemma_mask_update(w: u8, i: u8)
    requires
        i < 8,
    ensures
        slot_bit(w | 0x30u8, i) == (i == 4 || i == 5 || slot_bit(w, i)),
        slot_bit(w & 0xCFu8, i) == (i != 4 && i != 5 && slot_bit(w, i)),
        slot_bit(w & 0xFCu8, i) == (i != 0 && i != 1 && slot_bit(w, i)),
        slot_bit(w & 0xF3u8, i) == (i != 2 && i != 3 && slot_bit(w, i)),
        slot_bit(0xC0u8, i) == (i == 6 || i == 7),
        (w & 0b1000u8 == 0) == !(w & 0b1100u8 == 0b1000u8 || w & 0b1100u8 == 0b1100u8),
        0u8 & 0b1000u8 == 0,
        (w | 0x30u8) | 0x30u8 == w | 0x30u8,
        (w & 0xCFu8) & 0xCFu8 == w & 0xCFu8,
        (w & 0xFCu8) & 0xFCu8 == w & 0xFCu8,
        (w & 0xF3u8) & 0xF3u8 == w & 0xF3u8,
{
    assert((w | 0x30u8) | 0x30u8 == w | 0x30u8) by (bit_vector);
    assert((w & 0xCFu8) & 0xCFu8 == w & 0xCFu8) by (bit_vector);
    assert((w & 0xFCu8) & 0xFCu8 == w & 0xFCu8) by (bit_vector);
    assert((w & 0xF3u8) & 0xF3u8 == w & 0xF3u8) by (bit_vector);
    assert((w & 0b1000u8 == 0) == !(w & 0b1100u8 == 0b1000u8 || w & 0b1100u8 == 0b1100u8))
        by (bit_vector);
    assert(0u8 & 0b1000u8 == 0) by (bit_vector);
    assert(((w | 0x30u8) & (1u8 << i) != 0) == (i == 4 || i == 5 || w & (1u8 << i) != 0))
        by (bit_vector)
        requires
            i < 8,
    ;
    assert(((w & 0xCFu8) & (1u8 << i) != 0) == (i != 4 && i != 5 && w & (1u8 << i) != 0))
        by (bit_vector)
        requires
            i < 8,
    ;
    assert(((w & 0xFCu8) & (1u8 << i) != 0) == (i != 0 && i != 1 && w & (1u8 << i) != 0))
        by (bit_vector)
        requires
            i < 8,
    ;
    assert(((w & 0xF3u8) & (1u8 << i) != 0) == (i != 2 && i != 3 && w & (1u8 << i) != 0))
        by (bit_vector)
        requires
            i < 8,
    ;
    assert((0xC0u8 & (1u8 << i) != 0) == (i == 6 || i == 7)) by (bit_vector)
        requires
            i < 8,
    ;
}

/// The abstract state of a Sega mapper.
pub struct SegaState {
    /// All physical pages, flat: byte `o` of page `p` is at `p * PAGE_SIZE + o`.
    pub memory: Seq<u8>,
    /// Number of 8 KiB pages of ROM.
    pub rom_pages: nat,
    /// Number of 16 KiB banks of cartridge RAM allocated so far (0 to 2).
    pub ram_banks: nat,
    pub reg_fffc: u8,
    pub reg_fffd: u8,
    pub reg_fffe: u8,
    pub reg_ffff: u8,
    /// Physical page bound to each of the eight logical slots.
    pub pages: Seq<usize>,
    /// Bit `i` is set when slot `i` may be written.
    pub slot_writable: u8,
}

impl SegaState {
    pub open spec fn page_count(self) -> nat {
        1 + self.rom_pages + 2 * self.ram_banks
    }

    /// The ROM image.
    pub open spec fn rom(self) -> Seq<u8> {
        self.memory.subrange(PAGE_SIZE as int, (PAGE_SIZE * (1 + self.rom_pages)) as int)
    }

    pub open spec fn is_rom_page(self, p: int) -> bool {
        1 <= p <= self.rom_pages
    }

    /// Number of 16 KiB ROM banks.
    pub open spec fn bank_count(self) -> nat {
        self.rom_pages / 2
    }

    /// The bank that a write of `value` to a ROM-select register picks.
    pub open spec fn selected_bank(self, value: u8) -> u8 {
        if self.bank_count() == 0 {
            0
        } else {
            ((value & 0x7F) as nat % self.bank_count()) as u8
        }
    }

    /// Physical page holding half `half` of ROM bank `bank`; a ROM shorter
    /// than the bank is mirrored.
    pub open spec fn rom_page(self, bank: u8, half: nat) -> usize {
        (1 + ((2 * bank + half) as int % self.rom_pages as int)) as usize
    }

    /// Physical page holding half `half` of cartridge RAM bank `bank`.
    pub open spec fn ram_page(self, bank: nat, half: nat) -> usize {
        (1 + self.rom_pages + 2 * bank + half) as usize
    }

    pub open spec fn writable(self, slot: u8) -> bool {
        slot_bit(self.slot_writable, slot)
    }

    pub open spec fn wf(self) -> bool {
        &&& self.rom_pages >= 1
        &&& self.rom_pages * PAGE_SIZE <= MAX_ROM_LEN
        &&& self.ram_banks <= 2
        &&& self.memory.len() == self.page_count() * PAGE_SIZE
        &&& self.pages.len() == 8
        &&& forall|i: int| 0 <= i < 8 ==> #[trigger] self.pages[i] < self.page_count()
        &&& forall|i: u8|
            i < 8 ==> (#[trigger] self.writable(i) <==> !self.is_rom_page(self.pages[i as int] as int))
        &&& self.pages[6] == 0 && self.pages[7] == 0
        &&& (self.reg_fffc & 0b1000 == 0) == self.is_rom_page(self.pages[4] as int)
        &&& (self.reg_fffc & 0b1000 == 0) == self.is_rom_page(self.pages[5] as int)
        &&& self.follows_registers()
    }

    /// The slot table is what the control registers select: the first two
    /// ROM slots show the banks of 0xFFFD and 0xFFFE, and the third shows the
    /// cartridge RAM bank that 0xFFFC selects, or else the bank of 0xFFFF.
    pub open spec fn follows_registers(self) -> bool {
        &&& self.pages[0] == self.rom_page(self.reg_fffd, 0)
        &&& self.pages[1] == self.rom_page(self.reg_fffd, 1)
        &&& self.pages[2] == self.rom_page(self.reg_fffe, 0)
        &&& self.pages[3] == self.rom_page(self.reg_fffe, 1)
        &&& self.reg_fffc & 0b1100 == 0b1000 ==> self.pages[4] == self.ram_page(0, 0)
            && self.pages[5] == self.ram_page(0, 1)
        &&& self.reg_fffc & 0b1100 == 0b1100 ==> self.pages[4] == self.ram_page(1, 0)
            && self.pages[5] == self.ram_page(1, 1)
        &&& self.reg_fffc & 0b1000 == 0 ==> self.pages[4] == self.rom_page(self.reg_ffff, 0)
            && self.pages[5] == self.rom_page(self.reg_ffff, 1)
    }

    /// The byte seen at `addr`.
    pub open spec fn read(self, addr: u16) -> u8 {
        if addr < 0x400 {
            self.memory[PAGE_SIZE + addr]
        } else {
            self.memory[flat_index(
                self.pages[addr as int / 0x2000] as int,
                addr as int % 0x2000,
            )]
        }
    }

    pub open spec fn with_ram_banks(self, n: nat) -> SegaState {
        if self.ram_banks >= n {
            self
        } else {
            SegaState {
                memory: self.memory + zero_bytes(((n - self.ram_banks) * 2 * PAGE_SIZE) as nat),
                ram_banks: n,
                ..self
            }
        }
    }

    /// The effect of a write of `value` to a control register at `addr`.
    pub open spec fn control(self, addr: u16, value: u8) -> SegaState {
        let bank = self.selected_bank(value);
        if addr == 0xFFFC {
            if value & 0b1100 == 0b1000 {
                let s = self.with_ram_banks(1);
                SegaState {
                    pages: s.pages.update(4, s.ram_page(0, 0)).update(5, s.ram_page(0, 1)),
                    slot_writable: s.slot_writable | 0x30,
                    reg_fffc: value,
                    ..s
                }
            } else if value & 0b1100 == 0b1100 {
                let s = self.with_ram_banks(2);
                SegaState {
                    pages: s.pages.update(4, s.ram_page(1, 0)).update(5, s.ram_page(1, 1)),
                    slot_writable: s.slot_writable | 0x30,
                    reg_fffc: value,
                    ..s
                }
            } else {
                SegaState {
                    pages: self.pages.update(4, self.rom_page(self.reg_ffff, 0)).update(
                        5,
                        self.rom_page(self.reg_ffff, 1),
                    ),
                    slot_writable: self.slot_writable & 0xCF,
                    reg_fffc: value,
                    ..self
                }
            }
        } else if addr == 0xFFFD {
            SegaState {
                pages: self.pages.update(0, self.rom_page(bank, 0)).update(1, self.rom_page(bank, 1)),
                slot_writable: self.slot_writable & 0xFC,
                reg_fffd: bank,
                ..self
            }
        } else if addr == 0xFFFE {
            SegaState {
                pages: self.pages.update(2, self.rom_page(bank, 0)).update(3, self.rom_page(bank, 1)),
                slot_writable: self.slot_writable & 0xF3,
                reg_fffe: bank,
                ..self
            }
        } else if addr == 0xFFFF {
            if self.reg_fffc & 0b1000 == 0 {
                SegaState {
                    pages: self.pages.update(4, self.rom_page(bank, 0)).update(5, self.rom_page(bank, 1)),
                    reg_ffff: bank,
                    ..self
                }
            } else {
                SegaState { reg_ffff: bank, ..self }
            }
        } else {
            self
        }
    }

    /// The effect of an ordinary store of `value` at `addr`: it lands only in
    /// a writable slot.
    pub open spec fn store(self, addr: u16, value: u8) -> SegaState {
        let slot = (addr / 0x2000) as u8;
        if self.writable(slot) {
            SegaState {
                memory: self.memory.update(
                    flat_index(self.pages[slot as int] as int, addr as int % 0x2000),
                    value,
                ),
                ..self
            }
        } else {
            self
        }
    }

    /// The effect of a CPU write of `value` at `addr`.
    pub open spec fn write(self, addr: u16, value: u8) -> SegaState {
        self.control(addr, value).store(addr, value)
    }

    /// Where `addr` resolves to, from the slot table.
    pub open spec fn location(self, addr: u16) -> MemoryLocation {
        let off = addr as int % 0x2000;
        let p = self.pages[addr as int / 0x2000] as int;
        if addr < 0x400 {
            MemoryLocation::RomAddress(addr as u32)
        } else if p == 0 {
            MemoryLocation::SystemRamAddress(off as u16)
        } else if p <= self.rom_pages {
            MemoryLocation::RomAddress(((p - 1) * 0x2000 + off) as u32)
        } else {
            MemoryLocation::CartridgeRamAddress(((p - 1 - self.rom_pages) * 0x2000 + off) as u32)
        }
    }

    pub open spec fn allocation_memos(self, n: nat) -> Seq<Memo> {
        if n == 1 && self.ram_banks == 0 {
            seq![Memo::AllocateFirstPage]
        } else if n == 2 && self.ram_banks == 0 {
            seq![Memo::AllocateFirstPage, Memo::AllocateSecondPage]
        } else if n == 2 && self.ram_banks == 1 {
            seq![Memo::AllocateSecondPage]
        } else {
            Seq::empty()
        }
    }

    pub open spec fn irregular_memos(self) -> Seq<Memo> {
        bank_count_memos(self.bank_count() as usize)
    }

    /// The memos that a write of `value` to a control register emits.
    pub open spec fn control_memos(self, addr: u16, value: u8) -> Seq<Memo> {
        let bank = self.selected_bank(value);
        let reg = seq![Memo::RegisterWrite { register: addr, value }];
        if addr == 0xFFFC {
            if value & 0b1100 == 0b1000 {
                reg + self.allocation_memos(1) + seq![Memo::MapCartridgeRam { page: 0, slot: 2 }]
            } else if value & 0b1100 == 0b1100 {
                reg + self.allocation_memos(2) + seq![Memo::MapCartridgeRam { page: 1, slot: 2 }]
            } else {
                reg + seq![Memo::MapRom { slot: 2, page: self.reg_ffff }]
            }
        } else if addr == 0xFFFD {
            reg + self.irregular_memos() + seq![Memo::MapRom { slot: 0, page: bank }]
        } else if addr == 0xFFFE {
            reg + self.irregular_memos() + seq![Memo::MapRom { slot: 1, page: bank }]
        } else if addr == 0xFFFF {
            if self.reg_fffc & 0b1000 == 0 {
                reg + self.irregular_memos() + seq![Memo::MapRom { slot: 2, page: bank }]
            } else {
                reg + self.irregular_memos()
            }
        } else {
            Seq::empty()
        }
    }

    /// The memos that a CPU write of `value` at `addr` emits.
    pub open spec fn write_memos(self, addr: u16, value: u8) -> Seq<Memo> {
        let s = self.control(addr, value);
        let location = s.location(addr);
        self.control_memos(addr, value) + if s.writable((addr / 0x2000) as u8) {
            seq![Memo::Write { logical_address: addr, value, location }]
        } else {
            seq![Memo::InvalidWrite { logical_address: addr, value, location }]
        }
    }
}

proof fn lemma_control_wf(s: SegaState, addr: u16, value: u8)
    requires
        s.wf(),
    ensures
        s.control(addr, value).wf(),
{
    let t = s.control(addr, value);
    let bank = s.selected_bank(value);
    assert forall|i: u8| i < 8 implies (#[trigger] t.writable(i) <==> !t.is_rom_page(
        t.pages[i as int] as int,
    )) by {
        lemma_mask_update(s.slot_writable, i);
        assert(s.writable(i) <==> !s.is_rom_page(s.pages[i as int] as int));
        if addr == 0xFFFC {
            if value & 0b1100 == 0b1000 {
                let u = s.with_ram_banks(1);
                assert(u.slot_writable == s.slot_writable && u.rom_pages == s.rom_pages);
                assert(u.pages == s.pages);
            } else if value & 0b1100 == 0b1100 {
                let u = s.with_ram_banks(2);
                assert(u.slot_writable == s.slot_writable && u.rom_pages == s.rom_pages);
                assert(u.pages == s.pages);
            } else {
                assert(s.is_rom_page(s.rom_page(s.reg_ffff, 0) as int));
                assert(s.is_rom_page(s.rom_page(s.reg_ffff, 1) as int));
            }
        } else if addr == 0xFFFD || addr == 0xFFFE || addr == 0xFFFF {
            assert(s.is_rom_page(s.rom_page(bank, 0) as int));
            assert(s.is_rom_page(s.rom_page(bank, 1) as int));
            if addr == 0xFFFF && s.reg_fffc & 0b1000 == 0 && (i == 4 || i == 5) {
                assert(t.is_rom_page(t.pages[i as int] as int));
            }
        }
    }
    lemma_mask_update(value, 0);
    assert forall|i: int| 0 <= i < 8 implies #[trigger] t.pages[i] < t.page_count() by {
        assert(s.pages[i] < s.page_count());
    }
    if addr == 0xFFFC && (value & 0b1100 == 0b1000 || value & 0b1100 == 0b1100) {
        let n: nat = if value & 0b1100 == 0b1000 { 1 } else { 2 };
        let u = s.with_ram_banks(n);
        if s.ram_banks < n {
            assert(u.memory.len() == s.memory.len() + (n - s.ram_banks) * 2 * PAGE_SIZE);
            assert(u.memory.len() == u.page_count() * PAGE_SIZE) by (nonlinear_arith)
                requires
                    u.memory.len() == s.memory.len() + (n - s.ram_banks) * 2 * PAGE_SIZE,
                    s.memory.len() == s.page_count() * PAGE_SIZE,
                    u.page_count() == s.page_count() + 2 * (n - s.ram_banks),
            ;
        }
    }
}

proof fn lemma_store_wf(s: SegaState, addr: u16, value: u8)
    requires
        s.wf(),
    ensures
        s.store(addr, value).wf(),
{
    let t = s.store(addr, value);
    assert forall|i: u8| i < 8 implies (#[trigger] t.writable(i) <==> !t.is_rom_page(
        t.pages[i as int] as int,
    )) by {
        assert(s.writable(i) <==> !s.is_rom_page(s.pages[i as int] as int));
    }
}

/// The Sega memory mapper.
pub struct SegaMemoryMap {
    memory: Vec<u8>,
    rom_pages: usize,
    ram_banks: usize,
    reg_fffc: u8,
    reg_fffd: u8,
    reg_fffe: u8,
    reg_ffff: u8,
    pages: [usize; 8],
    slot_writable: u8,
}

impl View for SegaMemoryMap {
    type V = SegaState;

    closed spec fn view(&self) -> SegaState {
        SegaState {
            memory: self.memory@,
            rom_pages: self.rom_pages as nat,
            ram_banks: self.ram_banks as nat,
            reg_fffc: self.reg_fffc,
            reg_fffd: self.reg_fffd,
            reg_fffe: self.reg_fffe,
            reg_ffff: self.reg_ffff,
            pages: self.pages@,
            slot_writable: self.slot_writable,
        }
    }
}


impl SegaMemoryMap {
    /// An explicit deep copy, every page included.
    pub fn deep_copy(&self) -> (r: SegaMemoryMap)
        ensures
            r@ == self@,
    {
        let memory = self.memory.clone();
        proof {
            assert(memory@ =~= self.memory@);
        }
        SegaMemoryMap { memory, ..*self }
    }

    /// Loads a ROM image. It must be a positive multiple of 8 KiB long.
    ///
    /// At reset the three ROM slots show banks 0, 1 and 2, no cartridge RAM
    /// is mapped, and only the system RAM is writable.
    pub fn new(rom: &[u8]) -> (r: Result<SegaMemoryMap, MemoryMapError>)
        requires
            rom@.len() <= MAX_ROM_LEN,
        ensures
            r is Ok <==> valid_rom_len(rom@.len()),
            r matches Err(e) ==> e.rom_len == rom@.len(),
            r matches Ok(m) ==> {
                &&& m@.wf()
                &&& m@.rom() == rom@
                &&& m@.rom_pages == rom@.len() / (PAGE_SIZE as nat)
                &&& m@.ram_banks == 0
                &&& m@.memory == zero_bytes(PAGE_SIZE as nat) + rom@
                &&& m@.reg_fffc == 0 && m@.reg_fffd == 0 && m@.reg_fffe == 1 && m@.reg_ffff == 2
                &&& m@.pages == seq![
                    m@.rom_page(0, 0), m@.rom_page(0, 1), m@.rom_page(1, 0), m@.rom_page(1, 1),
                    m@.rom_page(2, 0), m@.rom_page(2, 1), 0usize, 0usize,
                ]
                &&& m@.slot_writable == 0xC0
            },
    {
        if rom.len() % PAGE_SIZE != 0 || rom.len() == 0 {
            return Err(MemoryMapError { rom_len: rom.len() });
        }
        let rom_pages = rom.len() / PAGE_SIZE;
        let memory = load_rom_pages(rom);
        let m = SegaMemoryMap {
            memory,
            ram_banks: 0,
            rom_pages,
            reg_fffc: 0,
            reg_fffd: 0,
            reg_fffe: 1,
            reg_ffff: 2,
            pages: [
                1 + (0 % rom_pages),
                1 + (1 % rom_pages),
                1 + (2 % rom_pages),
                1 + (3 % rom_pages),
                1 + (4 % rom_pages),
                1 + (5 % rom_pages),
                0,
                0,
            ],
            slot_writable: 0xC0,
        };
        proof {
            let v = m@;
            assert(v.pages =~= seq![
                v.rom_page(0, 0), v.rom_page(0, 1), v.rom_page(1, 0), v.rom_page(1, 1),
                v.rom_page(2, 0), v.rom_page(2, 1), 0usize, 0usize,
            ]);
            assert(v.memory.len() == PAGE_SIZE + rom_pages * PAGE_SIZE);
            assert(v.rom() =~= rom@);
            assert forall|i: u8| i < 8 implies (#[trigger] v.writable(i) <==> !v.is_rom_page(
                v.pages[i as int] as int,
            )) by {
                lemma_mask_update(0, i);
            }
            lemma_mask_update(0, 0);
            assert(v.wf());
        }
        Ok(m)
    }

    /// The byte seen at `logical_address`.
    pub fn read(&self, logical_address: u16) -> (r: u8)
        requires
            self@.wf(),
        ensures
            r == self@.read(logical_address),
    {
        if logical_address < 0x400 {
            self.memory[PAGE_SIZE + logical_address as usize]
        } else {
            let slot = (logical_address / 0x2000) as usize;
            let off = (logical_address % 0x2000) as usize;
            let p = self.pages[slot];
            proof {
                lemma_flat_index_in_bounds(p as int, self@.page_count() as int, off as int);
            }
            self.memory[p * PAGE_SIZE + off]
        }
    }

    /// Where `logical_address` resolves to.
    pub fn location(&self, logical_address: u16) -> (r: MemoryLocation)
        requires
            self@.wf(),
        ensures
            r == self@.location(logical_address),
    {
        let off = (logical_address % 0x2000) as usize;
        let p = self.pages[(logical_address / 0x2000) as usize];
        if logical_address < 0x400 {
            MemoryLocation::RomAddress(logical_address as u32)
        } else if p == 0 {
            MemoryLocation::SystemRamAddress(off as u16)
        } else if p <= self.rom_pages {
            MemoryLocation::RomAddress(((p - 1) * 0x2000 + off) as u32)
        } else {
            MemoryLocation::CartridgeRamAddress(((p - 1 - self.rom_pages) * 0x2000 + off) as u32)
        }
    }

    /// The byte seen at `logical_address`; `inbox` is handed a `Read` memo.
    pub fn read_noting<I: Inbox<Memo>>(&self, inbox: &mut I, logical_address: u16) -> (r: u8)
        requires
            self@.wf(),
        ensures
            r == self@.read(logical_address),
            final(inbox).received() == old(inbox).received().push(
                Memo::Read {
                    logical_address,
                    value: r,
                    location: self@.location(logical_address),
                },
            ),
    {
        let value = self.read(logical_address);
        let location = self.location(logical_address);
        inbox.receive(Memo::Read { logical_address, value, location });
        value
    }

    fn ensure_ram_banks<I: Inbox<Memo>>(&mut self, inbox: &mut I, n: usize)
        requires
            old(self)@.wf(),
            n == 1 || n == 2,
        ensures
            final(self)@ == old(self)@.with_ram_banks(n as nat),
            final(self)@.ram_banks >= n,
            final(inbox).received() == old(inbox).received() + old(self)@.allocation_memos(
                n as nat,
            ),
    {
        let ghost old_inbox = inbox.received();
        if self.ram_banks == 0 {
            inbox.receive(Memo::AllocateFirstPage);
        }
        if n == 2 && self.ram_banks < 2 {
            inbox.receive(Memo::AllocateSecondPage);
        }
        proof {
            let a = old(self)@.allocation_memos(n as nat);
            assert(inbox.received() =~= old_inbox + a);
        }
        if self.ram_banks < n {
            let extra = (n - self.ram_banks) * 2 * PAGE_SIZE;
            push_zero_bytes(&mut self.memory, extra);
            self.ram_banks = n;
        }
    }

    /// Applies a write to a control register, if `logical_address` is one.
    fn write_check_register<I: Inbox<Memo>>(
        &mut self,
        inbox: &mut I,
        logical_address: u16,
        value: u8,
    )
        requires
            old(self)@.wf(),
        ensures
            final(self)@ == old(self)@.control(logical_address, value),
            final(self)@.wf(),
            final(inbox).received() == old(inbox).received() + old(self)@.control_memos(
                logical_address,
                value,
            ),
    {
        let ghost s0 = self@;
        let ghost inbox0 = inbox.received();
        let bank_count = self.rom_pages / 2;
        let bank: u8 = if bank_count == 0 {
            0
        } else {
            let b = (value & 0x7F) as usize % bank_count;
            proof {
                vstd::arithmetic::div_mod::lemma_mod_decreases((value & 0x7F) as nat, bank_count as nat);
            }
            b as u8
        };
        let lo = 1 + (2 * bank as usize) % self.rom_pages;
        let hi = 1 + (2 * bank as usize + 1) % self.rom_pages;
        match SegaMemoryMapRegister::from_address(logical_address) {
            Some(SegaMemoryMapRegister::FFFC) => {
                inbox.receive(Memo::RegisterWrite { register: logical_address, value });
                if value & 0b1100 == 0b1000 {
                    self.ensure_ram_banks(inbox, 1);
                    inbox.receive(Memo::MapCartridgeRam { page: 0, slot: 2 });
                    let p = 1 + self.rom_pages;
                    self.pages[4] = p;
                    self.pages[5] = p + 1;
                    self.slot_writable = self.slot_writable | 0x30;
                } else if value & 0b1100 == 0b1100 {
                    self.ensure_ram_banks(inbox, 2);
                    inbox.receive(Memo::MapCartridgeRam { page: 1, slot: 2 });
                    let p = 1 + self.rom_pages + 2;
                    self.pages[4] = p;
                    self.pages[5] = p + 1;
                    self.slot_writable = self.slot_writable | 0x30;
                } else {
                    inbox.receive(Memo::MapRom { slot: 2, page: self.reg_ffff });
                    let b = self.reg_ffff as usize;
                    self.pages[4] = 1 + (2 * b) % self.rom_pages;
                    self.pages[5] = 1 + (2 * b + 1) % self.rom_pages;
                    self.slot_writable = self.slot_writable & 0xCF;
                }
                self.reg_fffc = value;
            },
            Some(SegaMemoryMapRegister::FFFD) => {
                inbox.receive(Memo::RegisterWrite { register: logical_address, value });
                if irregular_bank_count(bank_count) {
                    inbox.receive(Memo::BankCountNotPowerOfTwo { banks: bank_count as u32 });
                }
                inbox.receive(Memo::MapRom { slot: 0, page: bank });
                self.pages[0] = lo;
                self.pages[1] = hi;
                self.slot_writable = self.slot_writable & 0xFC;
                self.reg_fffd = bank;
            },
            Some(SegaMemoryMapRegister::FFFE) => {
                inbox.receive(Memo::RegisterWrite { register: logical_address, value });
                if irregular_bank_count(bank_count) {
                    inbox.receive(Memo::BankCountNotPowerOfTwo { banks: bank_count as u32 });
                }
                inbox.receive(Memo::MapRom { slot: 1, page: bank });
                self.pages[2] = lo;
                self.pages[3] = hi;
                self.slot_writable = self.slot_writable & 0xF3;
                self.reg_fffe = bank;
            },
            Some(SegaMemoryMapRegister::FFFF) => {
                inbox.receive(Memo::RegisterWrite { register: logical_address, value });
                if irregular_bank_count(bank_count) {
                    inbox.receive(Memo::BankCountNotPowerOfTwo { banks: bank_count as u32 });
                }
                // while cartridge RAM occupies the third slot, the register
                // is only remembered
                if self.reg_fffc & 0b1000 == 0 {
                    inbox.receive(Memo::MapRom { slot: 2, page: bank });
                    self.pages[4] = lo;
                    self.pages[5] = hi;
                }
                self.reg_ffff = bank;
            },
            None => {},
        }
        proof {
            let s1 = s0.control(logical_address, value);
            assert(self@.pages =~= s1.pages);
            assert(self@ == s1);
            assert(inbox.received() =~= inbox0 + s0.control_memos(logical_address, value));
            lemma_control_wf(s0, logical_address, value);
        }
    }

    /// A CPU write of `value` at `logical_address`; `inbox` is handed the
    /// memos that describe it.
    ///
    /// A write to a control register first remaps the slots. The value is
    /// then stored if the slot it falls in is writable, and dropped
    /// otherwise.
    pub fn write_noting<I: Inbox<Memo>>(&mut self, inbox: &mut I, logical_address: u16, value: u8)
        requires
            old(self)@.wf(),
        ensures
            final(self)@ == old(self)@.write(logical_address, value),
            final(self)@.wf(),
            final(inbox).received() == old(inbox).received() + old(self)@.write_memos(
                logical_address,
                value,
            ),
    {
        let ghost inbox0 = inbox.received();
        self.write_check_register(inbox, logical_address, value);
        let ghost inbox1 = inbox.received();
        let slot = (logical_address / 0x2000) as u8;
        let off = (logical_address % 0x2000) as usize;
        let location = self.location(logical_address);
        if self.slot_writable & (1u8 << slot) != 0 {
            inbox.receive(Memo::Write { logical_address, value, location });
            let p = self.pages[slot as usize];
            proof {
                lemma_flat_index_in_bounds(p as int, self@.page_count() as int, off as int);
            }
            self.memory.set(p * PAGE_SIZE + off, value);
        } else {
            inbox.receive(Memo::InvalidWrite { logical_address, value, location });
        }
        proof {
            let s1 = old(self)@.control(logical_address, value);
            assert(self@.memory =~= s1.store(logical_address, value).memory);
            assert(self@ == s1.store(logical_address, value));
            lemma_store_wf(s1, logical_address, value);
            assert(inbox.received() =~= inbox0 + old(self)@.write_memos(logical_address, value));
        }
    }

    /// A CPU write of `value` at `logical_address`, with no diagnostics.
    pub fn write(&mut self, logical_address: u16, value: u8)
        requires
            old(self)@.wf(),
        ensures
            final(self)@ == old(self)@.write(logical_address, value),
            final(self)@.wf(),
    {
        let mut inbox = NothingInbox::new();
        self.write_noting(&mut inbox, logical_address, value);
    }
}

/// An ordinary store never reaches a ROM page.
proof fn lemma_store_keeps_rom(s: SegaState, addr: u16, value: u8)
    requires
        s.wf(),
    ensures
        s.store(addr, value).rom() == s.rom(),
        s.store(addr, value).memory.len() == s.memory.len(),
{
    let slot = (addr / 0x2000) as u8;
    if s.writable(slot) {
        let p = s.pages[slot as int] as int;
        let off = addr as int % 0x2000;
        assert(!s.is_rom_page(p));
        lemma_flat_index_in_bounds(p, s.page_count() as int, off);
        if p >= 1 {
            assert(p * 0x2000 >= (1 + s.rom_pages) * 0x2000) by (nonlinear_arith)
                requires
                    p >= 1 + s.rom_pages,
            ;
        }
        assert(s.store(addr, value).rom() =~= s.rom());
    }
}

/// A write, control registers included, never changes the ROM image.
pub proof fn lemma_write_keeps_rom(s: SegaState, addr: u16, value: u8)
    requires
        s.wf(),
    ensures
        s.write(addr, value).rom() == s.rom(),
        s.write(addr, value).wf(),
{
    let t = s.control(addr, value);
    lemma_control_wf(s, addr, value);
    assert(t.rom() =~= s.rom());
    lemma_store_keeps_rom(t, addr, value);
    lemma_store_wf(t, addr, value);
}

/// The first KiB of the address space always reads as the first KiB of the
/// ROM image, whatever bank is selected and whatever is written anywhere.
pub proof fn lemma_boot_window_pinned(s: SegaState, addr: u16, written_at: u16, value: u8)
    requires
        s.wf(),
        addr < 0x400,
    ensures
        s.read(addr) == s.rom()[addr as int],
        s.write(written_at, value).read(addr) == s.rom()[addr as int],
{
    lemma_write_keeps_rom(s, written_at, value);
    let t = s.write(written_at, value);
    assert(t.rom()[addr as int] == t.memory[PAGE_SIZE + addr]);
}

/// Writing the same value to a control register twice leaves the mapper as
/// writing it once does.
pub proof fn lemma_bank_select_idempotent(s: SegaState, reg: SegaMemoryMapRegister, value: u8)
    requires
        s.wf(),
    ensures
        s.write(reg.address(), value).write(reg.address(), value) == s.write(reg.address(), value),
{
    let addr = reg.address();
    let t = s.write(addr, value);
    lemma_write_keeps_rom(s, addr, value);
    let c = t.control(addr, value);
    lemma_mask_update(s.slot_writable, 0);
    lemma_mask_update(s.with_ram_banks(1).slot_writable, 0);
    lemma_mask_update(s.with_ram_banks(2).slot_writable, 0);
    assert(t.control(addr, value).pages =~= t.pages);
    assert(c == t);
    let slot = (addr / 0x2000) as u8;
    assert(t.store(addr, value).memory =~= t.memory);
}

/// After bank `n` is selected into one of the three ROM slots, the slot shows
/// ROM bank `(n & 0x7F) mod bank_count`: byte `off` of the slot is byte
/// `((n & 0x7F) mod bank_count) * 0x4000 + off` of the ROM image. The first KiB of
/// the first slot is the exception: it stays pinned to the start of ROM.
pub proof fn lemma_selected_bank_visible(
    s: SegaState,
    reg: SegaMemoryMapRegister,
    n: u8,
    off: u16,
)
    requires
        s.wf(),
        s.bank_count() > 0,
        reg != SegaMemoryMapRegister::FFFC,
        reg == SegaMemoryMapRegister::FFFF ==> s.reg_fffc & 0b1000 == 0,
        off < 0x4000,
        reg == SegaMemoryMapRegister::FFFD ==> off >= 0x400,
    ensures
        ({
            let base: int = if reg == SegaMemoryMapRegister::FFFD {
                0
            } else if reg == SegaMemoryMapRegister::FFFE {
                0x4000
            } else {
                0x8000
            };
            s.write(reg.address(), n).read((base + off) as u16) == s.rom()[((n & 0x7F) as int
                % s.bank_count() as int) * 0x4000 + off]
        }),
{
    let addr = reg.address();
    let base: int = if reg == SegaMemoryMapRegister::FFFD {
        0
    } else if reg == SegaMemoryMapRegister::FFFE {
        0x4000
    } else {
        0x8000
    };
    let a = (base + off) as u16;
    let b = s.selected_bank(n) as int;
    let h: int = off as int / 0x2000;
    let o: int = off as int % 0x2000;
    let c = s.control(addr, n);
    let t = s.write(addr, n);
    lemma_write_keeps_rom(s, addr, n);
    vstd::arithmetic::div_mod::lemma_mod_decreases((n & 0x7F) as nat, s.bank_count());
    assert(b == (n & 0x7F) as int % s.bank_count() as int);
    assert(b < s.bank_count());
    assert(0 <= h <= 1);
    assert(2 * b + h < s.rom_pages);
    vstd::arithmetic::div_mod::lemma_small_mod((2 * b + h) as nat, s.rom_pages);
    assert(c.pages[a as int / 0x2000] == 1 + 2 * b + h);
    assert(a as int % 0x2000 == o);
    // the store lands in system RAM, away from the ROM pages read here
    let idx = flat_index(1 + 2 * b + h, o);
    assert(idx == PAGE_SIZE + ((2 * b + h) * 0x2000 + o)) by (nonlinear_arith)
        requires
            idx == flat_index(1 + 2 * b + h, o),
    ;
    assert((2 * b + h) * 0x2000 + o == b * 0x4000 + off) by (nonlinear_arith)
        requires
            h == off / 0x2000,
            o == off % 0x2000,
            0 <= off,
    ;
    lemma_flat_index_in_bounds(2 * b + h, s.rom_pages as int, o);
    assert(t.memory[idx] == c.memory[idx]);
    assert(c.memory[idx] == s.memory[idx]);
    assert(s.rom()[b * 0x4000 + off] == s.memory[PAGE_SIZE + b * 0x4000 + off]);
    assert(t.read(a) == t.memory[flat_index(t.pages[a as int / 0x2000] as int, o)]);
    assert(t.pages[a as int / 0x2000] == c.pages[a as int / 0x2000]);
}

/// The mapper after the writes `ws`, in order.
pub open spec fn write_all(s: SegaState, ws: Seq<(u16, u8)>) -> SegaState
    decreases ws.len(),
{
    if ws.len() == 0 {
        s
    } else {
        write_all(s, ws.drop_last()).write(ws.last().0, ws.last().1)
    }
}

/// Writes to the ROM bank registers leave the ROM and RAM page counts alone
/// and change no byte outside system RAM.
pub proof fn lemma_bank_selects_keep_memory(s: SegaState, ws: Seq<(u16, u8)>)
    requires
        s.wf(),
        forall|i: int| 0 <= i < ws.len() ==> (#[trigger] ws[i]).0 >= 0xFFFD,
    ensures
        write_all(s, ws).wf(),
        write_all(s, ws).rom_pages == s.rom_pages,
        write_all(s, ws).ram_banks == s.ram_banks,
        write_all(s, ws).memory.len() == s.memory.len(),
        forall|i: int| PAGE_SIZE <= i < s.memory.len() ==> #[trigger] write_all(s, ws).memory[i] == s.memory[i],
    decreases ws.len(),
{
    if ws.len() > 0 {
        let w = ws.drop_last();
        assert forall|i: int| 0 <= i < w.len() implies (#[trigger] w[i]).0 >= 0xFFFD by {
            assert(w[i] == ws[i]);
        }
        lemma_bank_selects_keep_memory(s, w);
        let t = write_all(s, w);
        let (a, v) = ws.last();
        assert(ws.last() == ws[ws.len() - 1]);
        lemma_write_keeps_rom(t, a, v);
        let c = t.control(a, v);
        assert(c.memory == t.memory);
        let off = a as int % 0x2000;
        assert(c.pages[7] == 0);
        lemma_flat_index_in_bounds(0, 1, off);
    }
}

/// Cartridge RAM keeps its contents while a ROM bank is mapped over it: a
/// value stored in mapped RAM reads back after the slot is switched to ROM,
/// any ROM banks are selected, and the slot is switched back to the same RAM
/// bank.
pub proof fn lemma_cartridge_ram_persists(
    s: SegaState,
    ram_select: u8,
    rom_select: u8,
    addr: u16,
    value: u8,
    bank_selects: Seq<(u16, u8)>,
)
    requires
        s.wf(),
        ram_select & 0b1100 == 0b1000 || ram_select & 0b1100 == 0b1100,
        !(rom_select & 0b1100 == 0b1000 || rom_select & 0b1100 == 0b1100),
        0x8000 <= addr < 0xC000,
        forall|i: int| 0 <= i < bank_selects.len() ==> (#[trigger] bank_selects[i]).0 >= 0xFFFD,
    ensures
        ({
            let s1 = s.write(0xFFFC, ram_select);
            let s2 = s1.write(addr, value);
            let s3 = write_all(s2.write(0xFFFC, rom_select), bank_selects);
            let s4 = s3.write(0xFFFC, ram_select);
            &&& s2.read(addr) == value
            &&& s4.read(addr) == value
        }),
{
    let s1 = s.write(0xFFFC, ram_select);
    let s2 = s1.write(addr, value);
    let s25 = s2.write(0xFFFC, rom_select);
    let s3 = write_all(s25, bank_selects);
    let s4 = s3.write(0xFFFC, ram_select);
    lemma_write_keeps_rom(s, 0xFFFC, ram_select);
    lemma_write_keeps_rom(s1, addr, value);
    lemma_write_keeps_rom(s2, 0xFFFC, rom_select);
    lemma_bank_selects_keep_memory(s25, bank_selects);
    lemma_write_keeps_rom(s3, 0xFFFC, ram_select);
    let bank: nat = if ram_select & 0b1100 == 0b1000 { 0 } else { 1 };
    let slot = addr as int / 0x2000;
    let o = addr as int % 0x2000;
    let p = s1.pages[slot] as int;
    assert(slot == 4 || slot == 5);
    lemma_mask_update(s.slot_writable, 4);
    lemma_mask_update(s.slot_writable, 5);
    lemma_mask_update(s.with_ram_banks(bank + 1).slot_writable, 4);
    assert(p == s1.ram_page(bank, (slot - 4) as nat));
    assert(s1.writable(slot as u8));
    let idx = flat_index(p, o);
    lemma_flat_index_in_bounds(p, s1.page_count() as int, o);
    assert(s2.memory[idx] == value);
    // the later control writes land in system RAM, page 0
    assert(idx >= PAGE_SIZE) by (nonlinear_arith)
        requires
            idx == p * 0x2000 + o,
            p >= 1,
            o >= 0,
    ;
    assert(s25.memory[idx] == value);
    assert(s3.memory[idx] == value);
    assert(s4.pages[slot] == p);
    assert(s4.memory[idx] == value);
}

/// A write into a slot that shows ROM changes nothing, and an inbox sees
/// exactly one memo for it: an `InvalidWrite`.
pub proof fn lemma_rom_write_ignored(s: SegaState, addr: u16, value: u8)
    requires
        s.wf(),
        s.is_rom_page(s.pages[addr as int / 0x2000] as int),
    ensures
        s.write(addr, value) == s,
        s.write(addr, value).read(addr) == s.read(addr),
        s.write_memos(addr, value) == seq![
            Memo::InvalidWrite { logical_address: addr, value, location: s.location(addr) },
        ],
{
    assert(addr < 0xC000);
    assert(!s.writable((addr / 0x2000) as u8));
    assert(s.control(addr, value) == s);
    assert(s.control_memos(addr, value) =~= Seq::<Memo>::empty());
    assert(s.write_memos(addr, value) =~= seq![
        Memo::InvalidWrite { logical_address: addr, value, location: s.location(addr) },
    ]);
}

/// In every well-formed state the first four slots show ROM, and the two
/// halves of the third 16 KiB slot show different pages unless the ROM is a
/// single 8 KiB page, which then fills both.
pub proof fn lemma_slot_layout(s: SegaState)
    requires
        s.wf(),
    ensures
        forall|i: int| 0 <= i < 4 ==> #[trigger] s.is_rom_page(s.pages[i] as int),
        s.rom_pages >= 2 || s.reg_fffc & 0b1000 != 0 ==> s.pages[4] != s.pages[5],
{
    let m = s.rom_pages as int;
    if s.reg_fffc & 0b1000 == 0 && m >= 2 {
        let x = 2 * s.reg_ffff as int;
        vstd::arithmetic::div_mod::lemma_add_mod_noop(x, 1, m);
        vstd::arithmetic::div_mod::lemma_small_mod(1, m as nat);
        vstd::arithmetic::div_mod::lemma_mod_bound(x, m);
        if x % m + 1 < m {
            vstd::arithmetic::div_mod::lemma_small_mod((x % m + 1) as nat, m as nat);
        } else {
            vstd::arithmetic::div_mod::lemma_mod_self_0(m);
        }
    }
    if s.reg_fffc & 0b1000 != 0 {
        lemma_mask_update(s.reg_fffc, 0);
    }
}

} // verus!
