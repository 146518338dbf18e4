//! The cartridge memory of a console, behind whichever mapper the cartridge
//! uses.

use vstd::prelude::*;
use crate::codemasters::{CodemastersMemoryMap, CodemastersState};
use crate::memory::{MemoryMapError, MAX_ROM_LEN, valid_rom_len};
use crate::sega::{SegaMemoryMap, SegaState};

verus! {

/// Which mapper a cartridge uses.
#[derive(Clone, Copy, Debug, PartialEq, Eq, Structural)]
pub enum MemoryMapperType {
    Sega,
    Codemasters,
}

/// The abstract state of a console's memory.
pub enum MemState {
    Sega(SegaState),
    Codemasters(CodemastersState),
}

impl MemState {
    pub open spec fn wf(self) -> bool {
        match self {
            MemState::Sega(s) => s.wf(),
            MemState::Codemasters(s) => s.wf(),
        }
    }

    pub open spec fn read(self, addr: u16) -> u8 {
        match self {
            MemState::Sega(s) => s.read(addr),
            MemState::Codemasters(s) => s.read(addr),
        }
    }

    pub open spec fn write(self, addr: u16, value: u8) -> MemState {
        match self {
            MemState::Sega(s) => MemState::Sega(s.write(addr, value)),
            MemState::Codemasters(s) => MemState::Codemasters(s.write(addr, value)),
        }
    }

    pub open spec fn rom(self) -> Seq<u8> {
        match self {
            MemState::Sega(s) => s.rom(),
            MemState::Codemasters(s) => s.rom(),
        }
    }

    /// Little-endian 16-bit read at `addr`, wrapping at the top of memory.
    pub open spec fn read16(self, addr: u16) -> u16 {
        (self.read(addr) as int + 256 * self.read(addr.wrapping_add(1)) as int) as u16
    }

    /// Little-endian 16-bit write at `addr`: low byte first.
    pub open spec fn write16(self, addr: u16, value: u16) -> MemState {
        self.write(addr, (value % 256) as u8).write(addr.wrapping_add(1), (value / 256) as u8)
    }
}

/// A console's cartridge memory.
pub enum SmsMemory {
    Sega(SegaMemoryMap),
    Codemasters(CodemastersMemoryMap),
}

impl View for SmsMemory {
    type V = MemState;

    open spec fn view(&self) -> MemState {
        match self {
            SmsMemory::Sega(m) => MemState::Sega(m@),
            SmsMemory::Codemasters(m) => MemState::Codemasters(m@),
        }
    }
}

impl SmsMemory {
    /// Loads a ROM image behind the mapper of kind `kind`.
    pub fn new(rom: &[u8], kind: MemoryMapperType) -> (r: Result<SmsMemory, MemoryMapError>)
        requires
            rom@.len() <= MAX_ROM_LEN,
        ensures
            r is Ok <==> valid_rom_len(rom@.len()),
            r matches Err(e) ==> e.rom_len == rom@.len(),
            r matches Ok(m) ==> m@.wf() && m@.rom() == rom@ && m.kind() == kind,
    {
        match kind {
            MemoryMapperType::Sega => match SegaMemoryMap::new(rom) {
                Ok(m) => Ok(SmsMemory::Sega(m)),
                Err(e) => Err(e),
            },
            MemoryMapperType::Codemasters => match CodemastersMemoryMap::new(rom) {
                Ok(m) => Ok(SmsMemory::Codemasters(m)),
                Err(e) => Err(e),
            },
        }
    }

    pub open spec fn spec_kind(&self) -> MemoryMapperType {
        match self {
            SmsMemory::Sega(_) => MemoryMapperType::Sega,
            SmsMemory::Codemasters(_) => MemoryMapperType::Codemasters,
        }
    }

    #[verifier::when_used_as_spec(spec_kind)]
    pub fn kind(&self) -> (r: MemoryMapperType)
        ensures
            r == self.spec_kind(),
    {
        match self {
            SmsMemory::Sega(_) => MemoryMapperType::Sega,
            SmsMemory::Codemasters(_) => MemoryMapperType::Codemasters,
        }
    }

    /// An explicit deep copy.
    pub fn deep_copy(&self) -> (r: SmsMemory)
        ensures
            r@ == self@,
            r.kind() == self.kind(),
    {
        match self {
            SmsMemory::Sega(m) => SmsMemory::Sega(m.deep_copy()),
            SmsMemory::Codemasters(m) => SmsMemory::Codemasters(m.deep_copy()),
        }
    }

    pub fn read(&self, addr: u16) -> (r: u8)
        requires
            self@.wf(),
        ensures
            r == self@.read(addr),
    {
        match self {
            SmsMemory::Sega(m) => m.read(addr),
            SmsMemory::Codemasters(m) => m.read(addr),
        }
    }

    pub fn write(&mut self, addr: u16, value: u8)
        requires
            old(self)@.wf(),
        ensures
            final(self)@ == old(self)@.write(addr, value),
            final(self)@.wf(),
            final(self).kind() == old(self).kind(),
    {
        match self {
            SmsMemory::Sega(m) => m.write(addr, value),
            SmsMemory::Codemasters(m) => m.write(addr, value),
        }
    }

    pub fn read16(&self, addr: u16) -> (r: u16)
        requires
            self@.wf(),
        ensures
            r == self@.read16(addr),
    {
        let lo = self.read(addr);
        let hi = self.read(addr.wrapping_add(1));
        lo as u16 + 256 * hi as u16
    }

    pub fn write16(&mut self, addr: u16, value: u16)
        requires
            old(self)@.wf(),
        ensures
            final(self)@ == old(self)@.write16(addr, value),
            final(self)@.wf(),
            final(self).kind() == old(self).kind(),
    {
        self.write(addr, (value % 256) as u8);
        self.write(addr.wrapping_add(1), (value / 256) as u8);
    }
}

/// System RAM, at 0xC000 and mirrored at 0xE000, below the Sega control
/// registers: a write there reads back, at every address that shares its
/// offset in the 8 KiB page, and leaves the other such addresses alone.
pub proof fn lemma_system_ram_write_read(m: MemState, a: u16, v: u8, b: u16)
    requires
        m.wf(),
        0xC000 <= a < 0xFFFC,
        0xC000 <= b < 0xFFFC,
    ensures
        m.write(a, v).wf(),
        m.write(a, v).read(b) == if a % 0x2000 == b % 0x2000 {
            v
        } else {
            m.read(b)
        },
{
    let oa = a as int % 0x2000;
    let ob = b as int % 0x2000;
    match m {
        MemState::Sega(s) => {
            crate::sega::lemma_write_keeps_rom(s, a, v);
            assert(s.control(a, v) == s);
            let sa = (a / 0x2000) as u8;
            assert(s.pages[sa as int] == 0);
            assert(s.writable(sa));
            crate::memory::lemma_flat_index_in_bounds(0, 1, oa);
            crate::memory::lemma_flat_index_in_bounds(0, 1, ob);
        },
        MemState::Codemasters(s) => {
            crate::codemasters::lemma_write_wf(s, a, v);
            let sa = (a / 0x2000) as u8;
            assert(s.pages[sa as int] == 0);
            assert(s.writable(sa));
            crate::memory::lemma_flat_index_in_bounds(0, 1, oa);
            crate::memory::lemma_flat_index_in_bounds(0, 1, ob);
        },
    }
}

} // verus!
