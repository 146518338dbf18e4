//! Arithmetic and logic of the Z80, with the documented flag rules.
//!
//! Flag register bits: S (0x80) sign, Z (0x40) zero, H (0x10) half carry,
//! P/V (0x04) parity or overflow, N (0x02) subtract, C (0x01) carry. The two
//! undocumented bits (0x20, 0x08) are left clear.

use vstd::prelude::*;

verus! {

pub const SF: u8 = 0x80;
pub const ZF: u8 = 0x40;
pub const HF: u8 = 0x10;
pub const PF: u8 = 0x04;
pub const NF: u8 = 0x02;
pub const CF: u8 = 0x01;

/// The flag byte with exactly the given documented flags set.
pub open spec fn spec_flags(s: bool, z: bool, h: bool, pv: bool, n: bool, c: bool) -> u8 {
    (if s { SF } else { 0u8 }) | (if z { ZF } else { 0u8 }) | (if h { HF } else { 0u8 }) | (if pv {
        PF
    } else {
        0u8
    }) | (if n { NF } else { 0u8 }) | (if c { CF } else { 0u8 })
}

#[verifier::when_used_as_spec(spec_flags)]
pub fn flags(s: bool, z: bool, h: bool, pv: bool, n: bool, c: bool) -> (r: u8)
    ensures
        r == spec_flags(s, z, h, pv, n, c),
{
    (if s { SF } else { 0u8 }) | (if z { ZF } else { 0u8 }) | (if h { HF } else { 0u8 }) | (if pv {
        PF
    } else {
        0u8
    }) | (if n { NF } else { 0u8 }) | (if c { CF } else { 0u8 })
}

/// Whether `x` has an even number of set bits.
pub open spec fn spec_parity_even(x: u8) -> bool {
    ((x & 1 != 0) as int + (x & 2 != 0) as int + (x & 4 != 0) as int + (x & 8 != 0) as int + (x
        & 16 != 0) as int + (x & 32 != 0) as int + (x & 64 != 0) as int + (x & 128 != 0) as int)
        % 2 == 0
}

#[verifier::when_used_as_spec(spec_parity_even)]
pub fn parity_even(x: u8) -> (r: bool)
    ensures
        r == spec_parity_even(x),
{
    let n: u8 = (x & 1 != 0) as u8 + (x & 2 != 0) as u8 + (x & 4 != 0) as u8 + (x & 8 != 0) as u8
        + (x & 16 != 0) as u8 + (x & 32 != 0) as u8 + (x & 64 != 0) as u8 + (x & 128 != 0) as u8;
    n % 2 == 0
}

/// `a + b + carry` on 8 bits: the result and its flags.
pub open spec fn add8(a: u8, b: u8, carry: bool) -> (u8, u8) {
    let c: int = if carry { 1 } else { 0 };
    let sum = a as int + b as int + c;
    let r = (sum % 256) as u8;
    (
        r,
        spec_flags(
            r >= 0x80,
            r == 0,
            (a as int % 16) + (b as int % 16) + c >= 16,
            (a < 0x80) == (b < 0x80) && (r < 0x80) != (a < 0x80),
            false,
            sum >= 256,
        ),
    )
}

/// `a - b - borrow` on 8 bits: the result and its flags.
pub open spec fn sub8(a: u8, b: u8, borrow: bool) -> (u8, u8) {
    let c: int = if borrow { 1 } else { 0 };
    let diff = a as int - b as int - c;
    let r = ((diff + 512) % 256) as u8;
    (
        r,
        spec_flags(
            r >= 0x80,
            r == 0,
            (a as int % 16) < (b as int % 16) + c,
            (a < 0x80) != (b < 0x80) && (r < 0x80) != (a < 0x80),
            true,
            diff < 0,
        ),
    )
}

pub fn alu_add(a: u8, b: u8, carry: bool) -> (r: (u8, u8))
    ensures
        r == add8(a, b, carry),
{
    let c: u16 = if carry { 1 } else { 0 };
    let sum: u16 = a as u16 + b as u16 + c;
    let r = (sum % 256) as u8;
    let f = flags(
        r >= 0x80,
        r == 0,
        (a % 16) as u16 + (b % 16) as u16 + c >= 16,
        (a < 0x80) == (b < 0x80) && (r < 0x80) != (a < 0x80),
        false,
        sum >= 256,
    );
    (r, f)
}

pub fn alu_sub(a: u8, b: u8, borrow: bool) -> (r: (u8, u8))
    ensures
        r == sub8(a, b, borrow),
{
    let c: u16 = if borrow { 1 } else { 0 };
    let r = ((a as u16 + 512 - b as u16 - c) % 256) as u8;
    let f = flags(
        r >= 0x80,
        r == 0,
        ((a % 16) as u16) < (b % 16) as u16 + c,
        (a < 0x80) != (b < 0x80) && (r < 0x80) != (a < 0x80),
        true,
        (a as u16) < b as u16 + c,
    );
    (r, f)
}

/// Flags of the logical operations: `and` sets H, `or` and `xor` clear it.
pub open spec fn logic_flags(r: u8, h: bool) -> u8 {
    spec_flags(r >= 0x80, r == 0, h, spec_parity_even(r), false, false)
}

pub fn alu_logic_flags(r: u8, h: bool) -> (f: u8)
    ensures
        f == logic_flags(r, h),
{
    flags(r >= 0x80, r == 0, h, parity_even(r), false, false)
}

/// `inc`: the carry flag is kept from `f`.
pub open spec fn inc8(a: u8, f: u8) -> (u8, u8) {
    let r = ((a as int + 1) % 256) as u8;
    (r, spec_flags(r >= 0x80, r == 0, a % 16 == 15, a == 0x7F, false, f & CF != 0))
}

/// `dec`: the carry flag is kept from `f`.
pub open spec fn dec8(a: u8, f: u8) -> (u8, u8) {
    let r = ((a as int + 255) % 256) as u8;
    (r, spec_flags(r >= 0x80, r == 0, a % 16 == 0, a == 0x80, true, f & CF != 0))
}

pub fn alu_inc(a: u8, f: u8) -> (r: (u8, u8))
    ensures
        r == inc8(a, f),
{
    let r = ((a as u16 + 1) % 256) as u8;
    (r, flags(r >= 0x80, r == 0, a % 16 == 15, a == 0x7F, false, f & CF != 0))
}

pub fn alu_dec(a: u8, f: u8) -> (r: (u8, u8))
    ensures
        r == dec8(a, f),
{
    let r = ((a as u16 + 255) % 256) as u8;
    (r, flags(r >= 0x80, r == 0, a % 16 == 0, a == 0x80, true, f & CF != 0))
}

/// The rotations and shifts of the bit-operation table.
#[derive(Clone, Copy, Debug, PartialEq, Eq, Structural)]
pub enum Shift {
    Rlc,
    Rrc,
    Rl,
    Rr,
    Sla,
    Sra,
    Sll,
    Srl,
}

/// The value after a rotation or shift, with `carry` the incoming carry flag.
pub open spec fn spec_shift_value(op: Shift, a: u8, carry: bool) -> u8 {
    let c: int = if carry { 1 } else { 0 };
    let a = a as int;
    (match op {
        Shift::Rlc => (a * 2) % 256 + a / 128,
        Shift::Rrc => a / 2 + (a % 2) * 128,
        Shift::Rl => (a * 2) % 256 + c,
        Shift::Rr => a / 2 + c * 128,
        Shift::Sla => (a * 2) % 256,
        Shift::Sra => a / 2 + (a / 128) * 128,
        Shift::Sll => (a * 2) % 256 + 1,
        Shift::Srl => a / 2,
    }) as u8
}

/// The bit shifted out: bit 7 for the left moves, bit 0 for the right ones.
pub open spec fn spec_shift_carry(op: Shift, a: u8) -> bool {
    match op {
        Shift::Rlc | Shift::Rl | Shift::Sla | Shift::Sll => a >= 0x80,
        _ => a % 2 == 1,
    }
}

/// A rotation or shift of the bit-operation table: the result and its flags.
pub open spec fn shift8(op: Shift, a: u8, f: u8) -> (u8, u8) {
    let r = spec_shift_value(op, a, f & CF != 0);
    (r, spec_flags(r >= 0x80, r == 0, false, spec_parity_even(r), false, spec_shift_carry(op, a)))
}

/// The one-byte accumulator rotations (`rlca`, `rrca`, `rla`, `rra`): only
/// H, N and C change.
pub open spec fn shift_a(op: Shift, a: u8, f: u8) -> (u8, u8) {
    let r = spec_shift_value(op, a, f & CF != 0);
    (r, (f & (SF | ZF | PF)) | (if spec_shift_carry(op, a) { CF } else { 0u8 }))
}

pub fn shift_value(op: Shift, a: u8, carry: bool) -> (r: u8)
    ensures
        r == spec_shift_value(op, a, carry),
{
    let c: u16 = if carry { 1 } else { 0 };
    let a = a as u16;
    (match op {
        Shift::Rlc => (a * 2) % 256 + a / 128,
        Shift::Rrc => a / 2 + (a % 2) * 128,
        Shift::Rl => (a * 2) % 256 + c,
        Shift::Rr => a / 2 + c * 128,
        Shift::Sla => (a * 2) % 256,
        Shift::Sra => a / 2 + (a / 128) * 128,
        Shift::Sll => (a * 2) % 256 + 1,
        Shift::Srl => a / 2,
    }) as u8
}

pub fn shift_carry(op: Shift, a: u8) -> (r: bool)
    ensures
        r == spec_shift_carry(op, a),
{
    match op {
        Shift::Rlc | Shift::Rl | Shift::Sla | Shift::Sll => a >= 0x80,
        _ => a % 2 == 1,
    }
}

pub fn alu_shift(op: Shift, a: u8, f: u8) -> (r: (u8, u8))
    ensures
        r == shift8(op, a, f),
{
    let r = shift_value(op, a, f & CF != 0);
    (r, flags(r >= 0x80, r == 0, false, parity_even(r), false, shift_carry(op, a)))
}

pub fn alu_shift_a(op: Shift, a: u8, f: u8) -> (r: (u8, u8))
    ensures
        r == shift_a(op, a, f),
{
    let r = shift_value(op, a, f & CF != 0);
    (r, (f & (SF | ZF | PF)) | (if shift_carry(op, a) { CF } else { 0u8 }))
}

/// `bit b, x`: Z and P/V tell whether the bit is clear, S whether bit 7 is
/// set; H is set, N cleared and C kept.
pub open spec fn bit_flags(b: u8, x: u8, f: u8) -> u8 {
    let set = x & (1u8 << b) != 0;
    spec_flags(b == 7 && set, !set, true, !set, false, f & CF != 0)
}

pub fn alu_bit(b: u8, x: u8, f: u8) -> (r: u8)
    requires
        b < 8,
    ensures
        r == bit_flags(b, x, f),
{
    let set = x & (1u8 << b) != 0;
    flags(b == 7 && set, !set, true, !set, false, f & CF != 0)
}

/// `add hl, rr` and its index-register forms: S, Z and P/V are kept.
pub open spec fn add16(a: u16, b: u16, f: u8) -> (u16, u8) {
    let sum = a as int + b as int;
    (
        (sum % 65536) as u16,
        (f & (SF | ZF | PF)) | (if (a as int % 4096) + (b as int % 4096) >= 4096 {
            HF
        } else {
            0u8
        }) | (if sum >= 65536 { CF } else { 0u8 }),
    )
}

pub fn alu_add16(a: u16, b: u16, f: u8) -> (r: (u16, u8))
    ensures
        r == add16(a, b, f),
{
    let sum: u32 = a as u32 + b as u32;
    (
        (sum % 65536) as u16,
        (f & (SF | ZF | PF)) | (if (a % 4096) as u32 + (b % 4096) as u32 >= 4096 {
            HF
        } else {
            0u8
        }) | (if sum >= 65536 { CF } else { 0u8 }),
    )
}

/// `adc hl, rr`: all six flags follow the 16-bit result.
pub open spec fn adc16(a: u16, b: u16, carry: bool) -> (u16, u8) {
    let c: int = if carry { 1 } else { 0 };
    let sum = a as int + b as int + c;
    let r = (sum % 65536) as u16;
    (
        r,
        spec_flags(
            r >= 0x8000,
            r == 0,
            (a as int % 4096) + (b as int % 4096) + c >= 4096,
            (a < 0x8000) == (b < 0x8000) && (r < 0x8000) != (a < 0x8000),
            false,
            sum >= 65536,
        ),
    )
}

/// `sbc hl, rr`: all six flags follow the 16-bit result.
pub open spec fn sbc16(a: u16, b: u16, borrow: bool) -> (u16, u8) {
    let c: int = if borrow { 1 } else { 0 };
    let diff = a as int - b as int - c;
    let r = ((diff + 131072) % 65536) as u16;
    (
        r,
        spec_flags(
            r >= 0x8000,
            r == 0,
            (a as int % 4096) < (b as int % 4096) + c,
            (a < 0x8000) != (b < 0x8000) && (r < 0x8000) != (a < 0x8000),
            true,
            diff < 0,
        ),
    )
}

pub fn alu_adc16(a: u16, b: u16, carry: bool) -> (r: (u16, u8))
    ensures
        r == adc16(a, b, carry),
{
    let c: u32 = if carry { 1 } else { 0 };
    let sum: u32 = a as u32 + b as u32 + c;
    let r = (sum % 65536) as u16;
    (
        r,
        flags(
            r >= 0x8000,
            r == 0,
            (a % 4096) as u32 + (b % 4096) as u32 + c >= 4096,
            (a < 0x8000) == (b < 0x8000) && (r < 0x8000) != (a < 0x8000),
            false,
            sum >= 65536,
        ),
    )
}

pub fn alu_sbc16(a: u16, b: u16, borrow: bool) -> (r: (u16, u8))
    ensures
        r == sbc16(a, b, borrow),
{
    let c: u32 = if borrow { 1 } else { 0 };
    let r = ((a as u32 + 131072 - b as u32 - c) % 65536) as u16;
    (
        r,
        flags(
            r >= 0x8000,
            r == 0,
            ((a % 4096) as u32) < (b % 4096) as u32 + c,
            (a < 0x8000) != (b < 0x8000) && (r < 0x8000) != (a < 0x8000),
            true,
            (a as u32) < b as u32 + c,
        ),
    )
}

/// `daa`: decimal adjustment of the accumulator after a BCD addition or
/// subtraction, as N in `f` says.
pub open spec fn daa(a: u8, f: u8) -> (u8, u8) {
    let n = f & NF != 0;
    let low = a as int % 16;
    let fix_low = f & HF != 0 || low > 9;
    let fix_high = f & CF != 0 || a > 0x99;
    let diff: int = (if fix_low { 6int } else { 0int }) + (if fix_high { 0x60int } else { 0int });
    let r = (if n { (a as int - diff + 256) % 256 } else { (a as int + diff) % 256 }) as u8;
    let h = if n { f & HF != 0 && low < 6 } else { low > 9 };
    (r, spec_flags(r >= 0x80, r == 0, h, spec_parity_even(r), n, fix_high))
}

pub fn alu_daa(a: u8, f: u8) -> (r: (u8, u8))
    ensures
        r == daa(a, f),
{
    let n = f & NF != 0;
    let low = a % 16;
    let fix_low = f & HF != 0 || low > 9;
    let fix_high = f & CF != 0 || a > 0x99;
    let diff: u16 = (if fix_low { 6u16 } else { 0u16 }) + (if fix_high { 0x60u16 } else { 0u16 });
    let r = (if n { (a as u16 + 256 - diff) % 256 } else { (a as u16 + diff) % 256 }) as u8;
    let h = if n { f & HF != 0 && low < 6 } else { low > 9 };
    (r, flags(r >= 0x80, r == 0, h, parity_even(r), n, fix_high))
}

} // verus!
