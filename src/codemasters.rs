//! The Codemasters memory mapper, used by cartridges from that developer.
//!
//! Writes to the logical addresses 0x0000, 0x4000 and 0x8000 select the ROM
//! bank shown in the first, second and third 16 KiB slot. The low seven bits
//! of the value pick the bank, modulo the number of banks. When bit 7 is set,
//! the upper 8 KiB of the slot shows the cartridge's single 8 KiB page of RAM
//! instead. Nothing is pinned: the whole first slot follows its register.

use vstd::prelude::*;
use crate::memo::{Inbox, NothingInbox};
use crate::memory::{
    bank_count_memos, irregular_bank_count, flat_index, lemma_flat_index_in_bounds, load_rom_pages, push_zero_bytes, valid_rom_len,
    zero_bytes, Memo, MemoryLocation, MemoryMapError, MAX_ROM_LEN, PAGE_SIZE,
};
use crate::sega::slot_bit;

verus! {

proof fn lemma_single_bit(w: u8, i: u8, j: u8)
    requires
        i < 8,
        j < 8,
    ensures
        slot_bit(w | (1u8 << j), i) == (i == j || slot_bit(w, i)),
        slot_bit(w & !(1u8 << j), i) == (i != j && slot_bit(w, i)),
        slot_bit(0xC0u8, i) == (i == 6 || i == 7),
{
    assert(((w | (1u8 << j)) & (1u8 << i) != 0) == (i == j || w & (1u8 << i) != 0))
        by (bit_vector)
        requires
            i < 8,
            j < 8,
    ;
    assert(((w & !(1u8 << j)) & (1u8 << i) != 0) == (i != j && w & (1u8 << i) != 0))
        by (bit_vector)
        requires
            i < 8,
            j < 8,
    ;
    assert((0xC0u8 & (1u8 << i) != 0) == (i == 6 || i == 7)) by (bit_vector)
        requires
            i < 8,
    ;
}

/// The abstract state of a Codemasters mapper.
pub struct CodemastersState {
    /// All physical pages, flat, as for the Sega mapper.
    pub memory: Seq<u8>,
    pub rom_pages: nat,
    pub ram_allocated: bool,
    pub reg_0000: u8,
    pub reg_4000: u8,
    pub reg_8000: u8,
    pub pages: Seq<usize>,
    pub slot_writable: u8,
}

impl CodemastersState {
    pub open spec fn page_count(self) -> nat {
        1 + self.rom_pages + if self.ram_allocated { 1nat } else { 0nat }
    }

    pub open spec fn rom(self) -> Seq<u8> {
        self.memory.subrange(PAGE_SIZE as int, (PAGE_SIZE * (1 + self.rom_pages)) as int)
    }

    pub open spec fn is_rom_page(self, p: int) -> bool {
        1 <= p <= self.rom_pages
    }

    pub open spec fn bank_count(self) -> nat {
        self.rom_pages / 2
    }

    /// The bank that `value` selects: its low seven bits, modulo the bank count.
    pub open spec fn selected_bank(self, value: u8) -> u8 {
        if self.bank_count() == 0 {
            0
        } else {
            ((value & 0x7F) as nat % self.bank_count()) as u8
        }
    }

    pub open spec fn rom_page(self, bank: u8, half: nat) -> usize {
        (1 + ((2 * bank + half) as int % self.rom_pages as int)) as usize
    }

    /// The physical page of the cartridge RAM.
    pub open spec fn ram_page(self) -> usize {
        (1 + self.rom_pages) as usize
    }

    pub open spec fn writable(self, slot: u8) -> bool {
        slot_bit(self.slot_writable, slot)
    }

    pub open spec fn wf(self) -> bool {
        &&& self.rom_pages >= 1
        &&& self.rom_pages * PAGE_SIZE <= MAX_ROM_LEN
        &&& self.memory.len() == self.page_count() * PAGE_SIZE
        &&& self.pages.len() == 8
        &&& forall|i: int| 0 <= i < 8 ==> #[trigger] self.pages[i] < self.page_count()
        &&& forall|i: u8|
            i < 8 ==> (#[trigger] self.writable(i) <==> !self.is_rom_page(self.pages[i as int] as int))
        &&& self.pages[6] == 0 && self.pages[7] == 0
        &&& self.is_rom_page(self.pages[0] as int)
        &&& self.is_rom_page(self.pages[2] as int)
        &&& self.is_rom_page(self.pages[4] as int)
    }

    pub open spec fn read(self, addr: u16) -> u8 {
        self.memory[flat_index(self.pages[addr as int / 0x2000] as int, addr as int % 0x2000)]
    }

    pub open spec fn is_control(addr: u16) -> bool {
        addr == 0x0000 || addr == 0x4000 || addr == 0x8000
    }

    /// Rebinds 16 KiB slot `slot` as a write of `value` to its register asks.
    pub open spec fn swap_slot(self, slot: int, value: u8) -> CodemastersState {
        let bank = self.selected_bank(value);
        let lo = 2 * slot;
        let hi = 2 * slot + 1;
        if value & 0x80 != 0 {
            let s = if self.ram_allocated {
                self
            } else {
                CodemastersState {
                    memory: self.memory + zero_bytes(PAGE_SIZE as nat),
                    ram_allocated: true,
                    ..self
                }
            };
            CodemastersState {
                pages: s.pages.update(hi, s.ram_page()).update(lo, s.rom_page(bank, 0)),
                slot_writable: s.slot_writable | (1u8 << hi as u8),
                ..s
            }
        } else {
            CodemastersState {
                pages: self.pages.update(hi, self.rom_page(bank, 1)).update(lo, self.rom_page(bank, 0)),
                slot_writable: self.slot_writable & !(1u8 << hi as u8),
                ..self
            }
        }
    }

    /// The effect of a CPU write of `value` at `addr`.
    pub open spec fn write(self, addr: u16, value: u8) -> CodemastersState {
        if addr == 0x0000 {
            CodemastersState { reg_0000: value, ..self.swap_slot(0, value) }
        } else if addr == 0x4000 {
            CodemastersState { reg_4000: value, ..self.swap_slot(1, value) }
        } else if addr == 0x8000 {
            CodemastersState { reg_8000: value, ..self.swap_slot(2, value) }
        } else if self.writable((addr / 0x2000) as u8) {
            CodemastersState {
                memory: self.memory.update(
                    flat_index(self.pages[addr as int / 0x2000] as int, addr as int % 0x2000),
                    value,
                ),
                ..self
            }
        } else {
            self
        }
    }

    pub open spec fn location(self, addr: u16) -> MemoryLocation {
        let off = addr as int % 0x2000;
        let p = self.pages[addr as int / 0x2000] as int;
        if p == 0 {
            MemoryLocation::SystemRamAddress(off as u16)
        } else if p <= self.rom_pages {
            MemoryLocation::RomAddress(((p - 1) * 0x2000 + off) as u32)
        } else {
            MemoryLocation::CartridgeRamAddress(off as u32)
        }
    }

    pub open spec fn swap_memos(self, slot: int, value: u8) -> Seq<Memo> {
        let bank = self.selected_bank(value);
        let map = bank_count_memos(self.bank_count() as usize) + seq![
            Memo::MapRom { slot: slot as u8, page: bank },
        ];
        if value & 0x80 != 0 {
            map + (if self.ram_allocated {
                Seq::empty()
            } else {
                seq![Memo::AllocateFirstPage]
            }) + seq![Memo::MapCartridgeRam { slot: slot as u8, page: bank }]
        } else {
            map
        }
    }

    /// The memos that a CPU write of `value` at `addr` emits.
    pub open spec fn write_memos(self, addr: u16, value: u8) -> Seq<Memo> {
        let reg = seq![Memo::RegisterWrite { register: addr, value }];
        if Self::is_control(addr) {
            reg + self.swap_memos(addr as int / 0x4000, value)
        } else if self.writable((addr / 0x2000) as u8) {
            seq![Memo::Write { logical_address: addr, value, location: self.location(addr) }]
        } else {
            seq![Memo::InvalidWrite { logical_address: addr, value, location: self.location(addr) }]
        }
    }
}

proof fn lemma_swap_wf(s: CodemastersState, slot: int, value: u8)
    requires
        s.wf(),
        0 <= slot < 3,
    ensures
        s.swap_slot(slot, value).wf(),
        s.swap_slot(slot, value).rom() == s.rom(),
{
    let t = s.swap_slot(slot, value);
    let bank = s.selected_bank(value) as int;
    let hi = (2 * slot + 1) as u8;
    if s.bank_count() > 0 {
        vstd::arithmetic::div_mod::lemma_mod_decreases((value & 0x7F) as nat, s.bank_count());
    }
    assert forall|i: u8| i < 8 implies (#[trigger] t.writable(i) <==> !t.is_rom_page(
        t.pages[i as int] as int,
    )) by {
        lemma_single_bit(s.slot_writable, i, hi);
        assert(s.writable(i) <==> !s.is_rom_page(s.pages[i as int] as int));
    }
    assert forall|i: int| 0 <= i < 8 implies #[trigger] t.pages[i] < t.page_count() by {
        assert(s.pages[i] < s.page_count());
    }
    assert(t.is_rom_page(t.pages[0] as int));
    assert(t.is_rom_page(t.pages[2] as int));
    assert(t.is_rom_page(t.pages[4] as int));
    if value & 0x80 != 0 && !s.ram_allocated {
        assert(t.memory.len() == t.page_count() * PAGE_SIZE) by (nonlinear_arith)
            requires
                t.memory.len() == s.memory.len() + PAGE_SIZE,
                s.memory.len() == s.page_count() * PAGE_SIZE,
                t.page_count() == s.page_count() + 1,
        ;
    }
    assert(t.rom() =~= s.rom());
}

pub proof fn lemma_write_wf(s: CodemastersState, addr: u16, value: u8)
    requires
        s.wf(),
    ensures
        s.write(addr, value).wf(),
        s.write(addr, value).rom() == s.rom(),
{
    let t = s.write(addr, value);
    if CodemastersState::is_control(addr) {
        let u = s.swap_slot(addr as int / 0x4000, value);
        lemma_swap_wf(s, addr as int / 0x4000, value);
        assert forall|i: u8| i < 8 implies (#[trigger] t.writable(i) <==> !t.is_rom_page(
            t.pages[i as int] as int,
        )) by {
            assert(u.writable(i) <==> !u.is_rom_page(u.pages[i as int] as int));
        }
        assert forall|i: int| 0 <= i < 8 implies #[trigger] t.pages[i] < t.page_count() by {
            assert(u.pages[i] < u.page_count());
        }
    } else {
        assert forall|i: u8| i < 8 implies (#[trigger] t.writable(i) <==> !t.is_rom_page(
            t.pages[i as int] as int,
        )) by {
            assert(s.writable(i) <==> !s.is_rom_page(s.pages[i as int] as int));
        }
        let slot = (addr / 0x2000) as u8;
        if s.writable(slot) {
            let p = s.pages[slot as int] as int;
            lemma_flat_index_in_bounds(p, s.page_count() as int, addr as int % 0x2000);
            if p >= 1 {
                assert(p * 0x2000 >= (1 + s.rom_pages) * 0x2000) by (nonlinear_arith)
                    requires
                        p >= 1 + s.rom_pages,
                ;
            }
        }
        assert(t.rom() =~= s.rom());
    }
}

/// The Codemasters memory mapper.
pub struct CodemastersMemoryMap {
    memory: Vec<u8>,
    rom_pages: usize,
    ram_allocated: bool,
    reg_0000: u8,
    reg_4000: u8,
    reg_8000: u8,
    pages: [usize; 8],
    slot_writable: u8,
}

impl View for CodemastersMemoryMap {
    type V = CodemastersState;

    closed spec fn view(&self) -> CodemastersState {
        CodemastersState {
            memory: self.memory@,
            rom_pages: self.rom_pages as nat,
            ram_allocated: self.ram_allocated,
            reg_0000: self.reg_0000,
            reg_4000: self.reg_4000,
            reg_8000: self.reg_8000,
            pages: self.pages@,
            slot_writable: self.slot_writable,
        }
    }
}

impl CodemastersMemoryMap {
    /// An explicit deep copy, every page included.
    pub fn deep_copy(&self) -> (r: CodemastersMemoryMap)
        ensures
            r@ == self@,
    {
        let memory = self.memory.clone();
        proof {
            assert(memory@ =~= self.memory@);
        }
        CodemastersMemoryMap { memory, ..*self }
    }

    /// Loads a ROM image, which must be a positive multiple of 8 KiB long.
    ///
    /// At reset the first slot shows bank 0, the second bank 1 and the third
    /// bank 0 again; only the system RAM is writable.
    pub fn new(rom: &[u8]) -> (r: Result<CodemastersMemoryMap, MemoryMapError>)
        requires
            rom@.len() <= MAX_ROM_LEN,
        ensures
            r is Ok <==> valid_rom_len(rom@.len()),
            r matches Err(e) ==> e.rom_len == rom@.len(),
            r matches Ok(m) ==> {
                &&& m@.wf()
                &&& m@.rom() == rom@
                &&& m@.rom_pages == rom@.len() / (PAGE_SIZE as nat)
                &&& !m@.ram_allocated
                &&& m@.memory == zero_bytes(PAGE_SIZE as nat) + rom@
                &&& m@.reg_0000 == 0 && m@.reg_4000 == 1 && m@.reg_8000 == 0
                &&& m@.pages == seq![
                    m@.rom_page(0, 0), m@.rom_page(0, 1), m@.rom_page(1, 0), m@.rom_page(1, 1),
                    m@.rom_page(0, 0), m@.rom_page(0, 1), 0usize, 0usize,
                ]
                &&& m@.slot_writable == 0xC0
            },
    {
        if rom.len() % PAGE_SIZE != 0 || rom.len() == 0 {
            return Err(MemoryMapError { rom_len: rom.len() });
        }
        let rom_pages = rom.len() / PAGE_SIZE;
        let memory = load_rom_pages(rom);
        let m = CodemastersMemoryMap {
            memory,
            rom_pages,
            ram_allocated: false,
            reg_0000: 0,
            reg_4000: 1,
            reg_8000: 0,
            pages: [
                1 + (0 % rom_pages),
                1 + (1 % rom_pages),
                1 + (2 % rom_pages),
                1 + (3 % rom_pages),
                1 + (0 % rom_pages),
                1 + (1 % rom_pages),
                0,
                0,
            ],
            slot_writable: 0xC0,
        };
        proof {
            let v = m@;
            assert(v.pages =~= seq![
                v.rom_page(0, 0), v.rom_page(0, 1), v.rom_page(1, 0), v.rom_page(1, 1),
                v.rom_page(0, 0), v.rom_page(0, 1), 0usize, 0usize,
            ]);
            assert(v.memory.len() == PAGE_SIZE + rom_pages * PAGE_SIZE);
            assert(v.rom() =~= rom@);
            assert forall|i: u8| i < 8 implies (#[trigger] v.writable(i) <==> !v.is_rom_page(
                v.pages[i as int] as int,
            )) by {
                lemma_single_bit(0, i, 0);
            }
        }
        Ok(m)
    }

    /// The byte seen at `logical_address`.
    pub fn read(&self, logical_address: u16) -> (r: u8)
        requires
            self@.wf(),
        ensures
            r == self@.read(logical_address),
    {
        let off = (logical_address % 0x2000) as usize;
        let p = self.pages[(logical_address / 0x2000) as usize];
        proof {
            lemma_flat_index_in_bounds(p as int, self@.page_count() as int, off as int);
        }
        self.memory[p * PAGE_SIZE + off]
    }

    /// Where `logical_address` resolves to.
    pub fn location(&self, logical_address: u16) -> (r: MemoryLocation)
        requires
            self@.wf(),
        ensures
            r == self@.location(logical_address),
    {
        let off = (logical_address % 0x2000) as usize;
        let p = self.pages[(logical_address / 0x2000) as usize];
        if p == 0 {
            MemoryLocation::SystemRamAddress(off as u16)
        } else if p <= self.rom_pages {
            MemoryLocation::RomAddress(((p - 1) * 0x2000 + off) as u32)
        } else {
            MemoryLocation::CartridgeRamAddress(off as u32)
        }
    }

    fn swap_slot<I: Inbox<Memo>>(&mut self, inbox: &mut I, slot: usize, value: u8)
        requires
            old(self)@.wf(),
            slot < 3,
        ensures
            final(self)@ == old(self)@.swap_slot(slot as int, value),
            final(inbox).received() == old(inbox).received() + old(self)@.swap_memos(
                slot as int,
                value,
            ),
    {
        let ghost s0 = self@;
        let ghost inbox0 = inbox.received();
        let bank_count = self.rom_pages / 2;
        let bank: u8 = if bank_count == 0 {
            0
        } else {
            let b = (value & 0x7F) as usize % bank_count;
            proof {
                vstd::arithmetic::div_mod::lemma_mod_decreases((value & 0x7F) as nat, bank_count as nat);
            }
            b as u8
        };
        let lo = 2 * slot;
        let hi = 2 * slot + 1;
        if irregular_bank_count(bank_count) {
            inbox.receive(Memo::BankCountNotPowerOfTwo { banks: bank_count as u32 });
        }
        inbox.receive(Memo::MapRom { slot: slot as u8, page: bank });
        if value & 0x80 != 0 {
            if !self.ram_allocated {
                inbox.receive(Memo::AllocateFirstPage);
                push_zero_bytes(&mut self.memory, PAGE_SIZE);
                self.ram_allocated = true;
            }
            inbox.receive(Memo::MapCartridgeRam { slot: slot as u8, page: bank });
            self.pages[hi] = 1 + self.rom_pages;
            self.slot_writable = self.slot_writable | (1u8 << hi as u8);
        } else {
            self.pages[hi] = 1 + (2 * bank as usize + 1) % self.rom_pages;
            self.slot_writable = self.slot_writable & !(1u8 << hi as u8);
        }
        self.pages[lo] = 1 + (2 * bank as usize) % self.rom_pages;
        proof {
            assert(self@.pages =~= s0.swap_slot(slot as int, value).pages);
            assert(inbox.received() =~= inbox0 + s0.swap_memos(slot as int, value));
        }
    }

    /// A CPU write of `value` at `logical_address`; `inbox` is handed the
    /// memos that describe it.
    ///
    /// A write to 0x0000, 0x4000 or 0x8000 only remaps its slot. Any other
    /// write is stored if its slot is writable and dropped otherwise.
    pub fn write_noting<I: Inbox<Memo>>(&mut self, inbox: &mut I, logical_address: u16, value: u8)
        requires
            old(self)@.wf(),
        ensures
            final(self)@ == old(self)@.write(logical_address, value),
            final(self)@.wf(),
            final(inbox).received() == old(inbox).received() + old(self)@.write_memos(
                logical_address,
                value,
            ),
    {
        let ghost s0 = self@;
        let ghost inbox0 = inbox.received();
        proof {
            lemma_write_wf(s0, logical_address, value);
        }
        if logical_address == 0x0000 || logical_address == 0x4000 || logical_address == 0x8000 {
            inbox.receive(Memo::RegisterWrite { register: logical_address, value });
            let slot = (logical_address / 0x4000) as usize;
            self.swap_slot(inbox, slot, value);
            if slot == 0 {
                self.reg_0000 = value;
            } else if slot == 1 {
                self.reg_4000 = value;
            } else {
                self.reg_8000 = value;
            }
            proof {
                assert(inbox.received() =~= inbox0 + s0.write_memos(logical_address, value));
            }
            return;
        }
        let slot = (logical_address / 0x2000) as u8;
        let off = (logical_address % 0x2000) as usize;
        let location = self.location(logical_address);
        if self.slot_writable & (1u8 << slot) != 0 {
            inbox.receive(Memo::Write { logical_address, value, location });
            let p = self.pages[slot as usize];
            proof {
                lemma_flat_index_in_bounds(p as int, self@.page_count() as int, off as int);
            }
            self.memory.set(p * PAGE_SIZE + off, value);
        } else {
            inbox.receive(Memo::InvalidWrite { logical_address, value, location });
        }
        proof {
            assert(self@.memory =~= s0.write(logical_address, value).memory);
            assert(inbox.received() =~= inbox0 + s0.write_memos(logical_address, value));
        }
    }

    /// A CPU write of `value` at `logical_address`, with no diagnostics.
    pub fn write(&mut self, logical_address: u16, value: u8)
        requires
            old(self)@.wf(),
        ensures
            final(self)@ == old(self)@.write(logical_address, value),
            final(self)@.wf(),
    {
        let mut inbox = NothingInbox::new();
        self.write_noting(&mut inbox, logical_address, value);
    }
}

/// A write into a slot that shows ROM, other than to a bank register,
/// changes nothing, and an inbox sees exactly one memo for it: an
/// `InvalidWrite`.
pub proof fn lemma_rom_write_ignored(s: CodemastersState, addr: u16, value: u8)
    requires
        s.wf(),
        !CodemastersState::is_control(addr),
        s.is_rom_page(s.pages[addr as int / 0x2000] as int),
    ensures
        s.write(addr, value) == s,
        s.write_memos(addr, value) == seq![
            Memo::InvalidWrite { logical_address: addr, value, location: s.location(addr) },
        ],
{
    assert(!s.writable((addr / 0x2000) as u8));
}

/// A write to a bank register is never stored: the slot that contains the
/// register's address is remapped, and no byte of memory already there
/// changes.
pub proof fn lemma_control_write_not_stored(s: CodemastersState, addr: u16, value: u8)
    requires
        s.wf(),
        CodemastersState::is_control(addr),
    ensures
        s.write(addr, value).memory.subrange(0, s.memory.len() as int) == s.memory,
{
    let t = s.write(addr, value);
    assert(t.memory.subrange(0, s.memory.len() as int) =~= s.memory);
}

} // verus!
