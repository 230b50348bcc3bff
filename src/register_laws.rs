//! Laws that relate the register file's writes to its reads.

use crate::registers::{
    lemma_sixteen_slots, read16, read32, read64, read8h, read8l, slot_of, write16, write32,
    write64, write8h, write8l, Registers,
};
use vstd::prelude::*;

verus! {

/// A 64-bit write followed by a 64-bit read of the same index gives back the
/// written value.
pub proof fn lemma_write64_read64(r: &Registers, i: usize, v: u64)
    ensures
        read64(write64(r@, i, v), i) == v,
{
    lemma_sixteen_slots(r);
}

/// A 32-bit write zero-extends: the 64-bit read that follows gives the written
/// value with the upper 32 bits clear, whatever the slot held before.
pub proof fn lemma_write32_zero_extends(r: &Registers, i: usize, v: u32)
    ensures
        read64(write32(r@, i, v), i) == v as u64,
        read64(write32(r@, i, v), i) >> 32 == 0,
        read32(write32(r@, i, v), i) == v,
{
    lemma_sixteen_slots(r);
    assert((v as u64) >> 32 == 0) by (bit_vector);
    assert(((v as u64) & 0xffff_ffff) as u32 == v) by (bit_vector);
}

/// A 16-bit write replaces bits 0..16 of the slot and keeps bits 16..64; in
/// particular a zero written over an all-ones slot clears only bits 0..16.
pub proof fn lemma_write16_keeps_upper_bits(r: &Registers, i: usize, v: u16)
    ensures
        read64(write16(r@, i, v), i) & 0xffff_ffff_ffff_0000 == read64(r@, i)
            & 0xffff_ffff_ffff_0000,
        read16(write16(r@, i, v), i) == v,
        read64(r@, i) == 0xffff_ffff_ffff_ffff && v == 0 ==> read64(write16(r@, i, v), i)
            == 0xffff_ffff_ffff_0000,
{
    lemma_sixteen_slots(r);
    let x = read64(r@, i);
    assert(((x & 0xffff_ffff_ffff_0000) | (v as u64)) & 0xffff_ffff_ffff_0000 == x
        & 0xffff_ffff_ffff_0000) by (bit_vector);
    assert((((x & 0xffff_ffff_ffff_0000) | (v as u64)) & 0xffff) as u16 == v) by (bit_vector);
    assert(x == 0xffff_ffff_ffff_ffff && v == 0 ==> (x & 0xffff_ffff_ffff_0000) | (v as u64)
        == 0xffff_ffff_ffff_0000) by (bit_vector);
}

/// A low-byte write replaces bits 0..8 of the slot and keeps bits 8..64; in
/// particular a zero written over an all-ones slot clears only bits 0..8.
pub proof fn lemma_write8l_keeps_upper_bits(r: &Registers, i: usize, v: u8)
    ensures
        read64(write8l(r@, i, v), i) & 0xffff_ffff_ffff_ff00 == read64(r@, i)
            & 0xffff_ffff_ffff_ff00,
        read8l(write8l(r@, i, v), i) == v,
        read64(r@, i) == 0xffff_ffff_ffff_ffff && v == 0 ==> read64(write8l(r@, i, v), i)
            == 0xffff_ffff_ffff_ff00,
{
    lemma_sixteen_slots(r);
    let x = read64(r@, i);
    assert(((x & 0xffff_ffff_ffff_ff00) | (v as u64)) & 0xffff_ffff_ffff_ff00 == x
        & 0xffff_ffff_ffff_ff00) by (bit_vector);
    assert((((x & 0xffff_ffff_ffff_ff00) | (v as u64)) & 0xff) as u8 == v) by (bit_vector);
    assert(x == 0xffff_ffff_ffff_ffff && v == 0 ==> (x & 0xffff_ffff_ffff_ff00) | (v as u64)
        == 0xffff_ffff_ffff_ff00) by (bit_vector);
}

/// A high-byte write replaces bits 8..16 of the slot and keeps every other bit;
/// in particular a zero written over an all-ones slot clears only bits 8..16.
pub proof fn lemma_write8h_keeps_other_bits(r: &Registers, i: usize, v: u8)
    ensures
        read64(write8h(r@, i, v), i) & 0xffff_ffff_ffff_00ff == read64(r@, i)
            & 0xffff_ffff_ffff_00ff,
        read8h(write8h(r@, i, v), i) == v,
        read64(r@, i) == 0xffff_ffff_ffff_ffff && v == 0 ==> read64(write8h(r@, i, v), i)
            == 0xffff_ffff_ffff_00ff,
{
    lemma_sixteen_slots(r);
    let x = read64(r@, i);
    assert(((x & 0xffff_ffff_ffff_00ff) | ((v as u64) << 8)) & 0xffff_ffff_ffff_00ff == x
        & 0xffff_ffff_ffff_00ff) by (bit_vector);
    assert(((((x & 0xffff_ffff_ffff_00ff) | ((v as u64) << 8)) >> 8) & 0xff) as u8 == v)
        by (bit_vector);
    assert(x == 0xffff_ffff_ffff_ffff && v == 0 ==> (x & 0xffff_ffff_ffff_00ff) | ((v as u64)
        << 8) == 0xffff_ffff_ffff_00ff) by (bit_vector);
}

/// Indices `i` and `i + 16` name the same slot: every read at one equals the
/// read of the same width at the other, and every write at one has the same
/// effect as the write of the same width at the other.
pub proof fn lemma_index_aliasing(r: &Registers, i: usize)
    requires
        i + 16 <= usize::MAX,
    ensures
        read64(r@, i) == read64(r@, (i + 16) as usize),
        read32(r@, i) == read32(r@, (i + 16) as usize),
        read16(r@, i) == read16(r@, (i + 16) as usize),
        read8l(r@, i) == read8l(r@, (i + 16) as usize),
        read8h(r@, i) == read8h(r@, (i + 16) as usize),
        forall|v: u64| #[trigger] write64(r@, i, v) == write64(r@, (i + 16) as usize, v),
        forall|v: u32| #[trigger] write32(r@, i, v) == write32(r@, (i + 16) as usize, v),
        forall|v: u16| #[trigger] write16(r@, i, v) == write16(r@, (i + 16) as usize, v),
        forall|v: u8| #[trigger] write8l(r@, i, v) == write8l(r@, (i + 16) as usize, v),
        forall|v: u8| #[trigger] write8h(r@, i, v) == write8h(r@, (i + 16) as usize, v),
{
    assert(slot_of(i) == slot_of((i + 16) as usize));
}

} // verus!
