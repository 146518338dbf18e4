//! Pieces shared by the two cartridge memory mappers.
//!
//! Both mappers keep their storage as one flat sequence of 8 KiB physical
//! pages: page 0 is the console's system RAM, pages `1 ..= rom_pages` hold the
//! cartridge ROM image verbatim, and any later pages are cartridge RAM, added
//! on first use and never removed. The 64 KiB logical address space is cut
//! into eight 8 KiB slots, each bound to one physical page.

use vstd::prelude::*;

verus! {

/// Size in bytes of a physical page and of a logical slot.
pub const PAGE_SIZE: usize = 0x2000;

/// Where a logical address resolved to, for diagnostics.
#[derive(Clone, Copy, Debug, PartialEq, Eq, Structural)]
pub enum MemoryLocation {
    /// Offset into the ROM image.
    RomAddress(u32),
    /// Offset into the 8 KiB of system RAM.
    SystemRamAddress(u16),
    /// Offset into the cartridge RAM.
    CartridgeRamAddress(u32),
}

/// Diagnostic events emitted by a memory mapper.
#[derive(Clone, Copy, Debug, PartialEq, Eq, Structural)]
pub enum Memo {
    AllocateFirstPage,
    AllocateSecondPage,
    InvalidWrite { logical_address: u16, value: u8, location: MemoryLocation },
    RegisterWrite { register: u16, value: u8 },
    /// A bank was selected modulo a number of ROM banks that is not a power
    /// of two, which the hardware would not do.
    BankCountNotPowerOfTwo { banks: u32 },
    MapRom { slot: u8, page: u8 },
    MapCartridgeRam { page: u8, slot: u8 },
    Read { logical_address: u16, value: u8, location: MemoryLocation },
    Write { logical_address: u16, value: u8, location: MemoryLocation },
}

/// A ROM image that cannot be loaded: its length is not a positive multiple
/// of 8 KiB.
#[derive(Clone, Copy, Debug, PartialEq, Eq, Structural)]
pub struct MemoryMapError {
    pub rom_len: usize,
}

/// The largest ROM image accepted, so that every physical page index and
/// every location offset fits its type.
pub const MAX_ROM_LEN: usize = 0x4000_0000;

/// Whether `len` bytes make a loadable ROM image.
pub open spec fn valid_rom_len(len: nat) -> bool {
    &&& len > 0
    &&& len % (PAGE_SIZE as nat) == 0
}

/// Whether `banks` is not a power of two.
pub open spec fn spec_irregular_bank_count(banks: usize) -> bool {
    banks == 0 || banks & (banks - 1) as usize != 0
}

#[verifier::when_used_as_spec(spec_irregular_bank_count)]
pub fn irregular_bank_count(banks: usize) -> (r: bool)
    ensures
        r == spec_irregular_bank_count(banks),
{
    banks == 0 || banks & (banks - 1) != 0
}

/// The memos flagging a selection among `banks` ROM banks: one when the
/// count is not a power of two, none otherwise.
pub open spec fn bank_count_memos(banks: usize) -> Seq<Memo> {
    if spec_irregular_bank_count(banks) {
        seq![Memo::BankCountNotPowerOfTwo { banks: banks as u32 }]
    } else {
        Seq::empty()
    }
}

pub open spec fn zero_bytes(n: nat) -> Seq<u8> {
    Seq::new(n, |i: int| 0u8)
}

/// Index of byte `off` of physical page `p` in the flat store.
pub open spec fn flat_index(p: int, off: int) -> int {
    p * (PAGE_SIZE as int) + off
}

pub proof fn lemma_flat_index_in_bounds(p: int, n: int, off: int)
    requires
        0 <= p < n,
        0 <= off < PAGE_SIZE,
    ensures
        0 <= flat_index(p, off) < n * (PAGE_SIZE as int),
        flat_index(p, off) >= p * (PAGE_SIZE as int),
{
    assert(p * 0x2000 + off < n * 0x2000) by (nonlinear_arith)
        requires
            0 <= p < n,
            0 <= off < 0x2000,
    ;
    assert(p * 0x2000 >= 0) by (nonlinear_arith)
        requires
            0 <= p,
    ;
}

/// Appends `n` zero bytes to `mem`.
pub fn push_zero_bytes(mem: &mut Vec<u8>, n: usize)
    requires
        old(mem)@.len() + n <= usize::MAX,
    ensures
        final(mem)@ == old(mem)@ + zero_bytes(n as nat),
{
    let ghost start = mem@;
    let mut i: usize = 0;
    while i < n
        invariant
            i <= n,
            start.len() + n <= usize::MAX,
            mem@ == start + zero_bytes(i as nat),
        decreases n - i,
    {
        mem.push(0u8);
        i = i + 1;
        assert(mem@ =~= start + zero_bytes(i as nat));
    }
}

/// Copies the ROM image after one page of zeroed system RAM.
pub fn load_rom_pages(rom: &[u8]) -> (mem: Vec<u8>)
    requires
        rom@.len() <= MAX_ROM_LEN,
    ensures
        mem@ == zero_bytes(PAGE_SIZE as nat) + rom@,
{
    let mut mem: Vec<u8> = Vec::new();
    push_zero_bytes(&mut mem, PAGE_SIZE);
    let mut i: usize = 0;
    while i < rom.len()
        invariant
            i <= rom@.len() <= MAX_ROM_LEN,
            mem@ == zero_bytes(PAGE_SIZE as nat) + rom@.subrange(0, i as int),
        decreases rom@.len() - i,
    {
        mem.push(rom[i]);
        i = i + 1;
        assert(mem@ =~= zero_bytes(PAGE_SIZE as nat) + rom@.subrange(0, i as int));
    }
    assert(rom@.subrange(0, rom@.len() as int) =~= rom@);
    mem
}

} // verus!
