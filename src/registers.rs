//! The general-purpose register file: sixteen 64-bit slots and a flags word,
//! with 64, 32, 16 and 8-bit views of each slot.

use vstd::prelude::*;

verus! {

/// The slot that a register index addresses: indices wrap modulo sixteen.
pub open spec fn slot_of(idx: usize) -> int {
    (idx % 16) as int
}

/// Full 64-bit value of the slot that `idx` addresses.
pub open spec fn read64(s: Seq<u64>, idx: usize) -> u64 {
    s[slot_of(idx)]
}

/// The slots with the one that `idx` addresses replaced by `v`.
pub open spec fn write64(s: Seq<u64>, idx: usize, v: u64) -> Seq<u64> {
    s.update(slot_of(idx), v)
}

/// Bits 0..32 of the slot that `idx` addresses.
pub open spec fn read32(s: Seq<u64>, idx: usize) -> u32 {
    (read64(s, idx) & 0xffff_ffff) as u32
}

/// The slots after a 32-bit write: the whole slot becomes `v` zero-extended.
pub open spec fn write32(s: Seq<u64>, idx: usize, v: u32) -> Seq<u64> {
    write64(s, idx, v as u64)
}

/// Bits 0..16 of the slot that `idx` addresses.
pub open spec fn read16(s: Seq<u64>, idx: usize) -> u16 {
    (read64(s, idx) & 0xffff) as u16
}

/// The slots after a 16-bit write: bits 0..16 become `v`, bits 16..64 are kept.
pub open spec fn write16(s: Seq<u64>, idx: usize, v: u16) -> Seq<u64> {
    write64(s, idx, (read64(s, idx) & 0xffff_ffff_ffff_0000) | (v as u64))
}

/// Bits 0..8 of the slot that `idx` addresses.
pub open spec fn read8l(s: Seq<u64>, idx: usize) -> u8 {
    (read64(s, idx) & 0xff) as u8
}

/// The slots after a low-byte write: bits 0..8 become `v`, bits 8..64 are kept.
pub open spec fn write8l(s: Seq<u64>, idx: usize, v: u8) -> Seq<u64> {
    write64(s, idx, (read64(s, idx) & 0xffff_ffff_ffff_ff00) | (v as u64))
}

/// Bits 8..16 of the slot that `idx` addresses.
pub open spec fn read8h(s: Seq<u64>, idx: usize) -> u8 {
    ((read64(s, idx) >> 8) & 0xff) as u8
}

/// The slots after a high-byte write: bits 8..16 become `v`, all other bits are kept.
pub open spec fn write8h(s: Seq<u64>, idx: usize, v: u8) -> Seq<u64> {
    write64(s, idx, (read64(s, idx) & 0xffff_ffff_ffff_00ff) | ((v as u64) << 8))
}

/// Proves that masking a register index with 0xf picks its slot.
proof fn lemma_mask_is_slot(idx: usize)
    ensures
        (idx & 0xf) as int == slot_of(idx),
        (idx & 0xf) < 16,
{
    assert(idx & 0xf == idx % 16) by (bit_vector);
    assert(idx & 0xf < 16) by (bit_vector);
}

/// Sixteen 64-bit general-purpose registers (RAX..R15) and the flags word.
#[derive(Clone, Debug)]
pub struct Registers {
    regs: [u64; 16],
    /// RFLAGS, kept as an opaque 64-bit value.
    pub rflags: u64,
}

impl View for Registers {
    type V = Seq<u64>;

    /// The slots in register order, index 0 (RAX) to index 15 (R15).
    closed spec fn view(&self) -> Seq<u64> {
        self.regs@
    }
}

/// Every register file has exactly sixteen slots.
pub proof fn lemma_sixteen_slots(r: &Registers)
    ensures
        r@.len() == 16,
{
}

impl Registers {
    /// The flags word.
    pub closed spec fn flags(&self) -> u64 {
        self.rflags
    }

    /// A register file with every slot and the flags word zero.
    pub fn new() -> (r: Self)
        ensures
            r@ == Seq::new(16, |i: int| 0u64),
            r.flags() == 0,
    {
        let r = Registers { regs: [0u64; 16], rflags: 0 };
        assert(r@ =~= Seq::new(16, |i: int| 0u64));
        r
    }

    /// Reads the full 64-bit slot.
    pub fn get_r64(&self, idx: usize) -> (r: u64)
        ensures
            r == read64(self@, idx),
    {
        proof { lemma_mask_is_slot(idx); }
        self.regs[idx & 0xf]
    }

    /// Replaces the full 64-bit slot.
    pub fn set_r64(&mut self, idx: usize, val: u64)
        ensures
            final(self)@ == write64(old(self)@, idx, val),
            final(self).flags() == old(self).flags(),
    {
        proof { lemma_mask_is_slot(idx); }
        self.regs[idx & 0xf] = val;
        assert(self@ =~= write64(old(self)@, idx, val));
    }

    /// Reads the low 32 bits of the slot.
    pub fn get_r32(&self, idx: usize) -> (r: u32)
        ensures
            r == read32(self@, idx),
    {
        proof { lemma_mask_is_slot(idx); }
        (self.regs[idx & 0xf] & 0xffff_ffff) as u32
    }

    /// Writes the low 32 bits of the slot and clears the upper 32 bits.
    pub fn set_r32(&mut self, idx: usize, val: u32)
        ensures
            final(self)@ == write32(old(self)@, idx, val),
            final(self).flags() == old(self).flags(),
    {
        let new = (val as u64) & 0xffff_ffffu64;
        assert(new == val as u64) by (bit_vector)
            requires
                new == (val as u64) & 0xffff_ffffu64,
        ;
        self.set_r64(idx, new);
    }

    /// Reads the low 16 bits of the slot.
    pub fn get_r16(&self, idx: usize) -> (r: u16)
        ensures
            r == read16(self@, idx),
    {
        proof { lemma_mask_is_slot(idx); }
        (self.regs[idx & 0xf] & 0xffff) as u16
    }

    /// Writes the low 16 bits of the slot, keeping bits 16..64.
    pub fn set_r16(&mut self, idx: usize, val: u16)
        ensures
            final(self)@ == write16(old(self)@, idx, val),
            final(self).flags() == old(self).flags(),
    {
        let i = idx & 0xf;
        proof { lemma_mask_is_slot(idx); }
        let high = self.regs[i] & !0xffffu64;
        assert(!0xffffu64 == 0xffff_ffff_ffff_0000u64) by (bit_vector);
        let new = high | ((val as u64) & 0xffffu64);
        assert(((val as u64) & 0xffffu64) == val as u64) by (bit_vector);
        self.set_r64(idx, new);
    }

    /// Reads bits 0..8 of the slot.
    pub fn get_r8l(&self, idx: usize) -> (r: u8)
        ensures
            r == read8l(self@, idx),
    {
        proof { lemma_mask_is_slot(idx); }
        (self.regs[idx & 0xf] & 0xff) as u8
    }

    /// Writes bits 0..8 of the slot, keeping bits 8..64.
    pub fn set_r8l(&mut self, idx: usize, val: u8)
        ensures
            final(self)@ == write8l(old(self)@, idx, val),
            final(self).flags() == old(self).flags(),
    {
        let i = idx & 0xf;
        proof { lemma_mask_is_slot(idx); }
        let high = self.regs[i] & !0xffu64;
        assert(!0xffu64 == 0xffff_ffff_ffff_ff00u64) by (bit_vector);
        let new = high | ((val as u64) & 0xffu64);
        assert(((val as u64) & 0xffu64) == val as u64) by (bit_vector);
        self.set_r64(idx, new);
    }

    /// Reads bits 8..16 of the slot.
    pub fn get_r8h(&self, idx: usize) -> (r: u8)
        ensures
            r == read8h(self@, idx),
    {
        let i = idx & 0xf;
        proof { lemma_mask_is_slot(idx); }
        ((self.regs[i] >> 8) & 0xff) as u8
    }

    /// Writes bits 8..16 of the slot, keeping every other bit.
    pub fn set_r8h(&mut self, idx: usize, val: u8)
        ensures
            final(self)@ == write8h(old(self)@, idx, val),
            final(self).flags() == old(self).flags(),
    {
        let i = idx & 0xf;
        proof { lemma_mask_is_slot(idx); }
        let low = self.regs[i] & !(0xffu64 << 8);
        assert(!(0xffu64 << 8) == 0xffff_ffff_ffff_00ffu64) by (bit_vector);
        let new = low | (((val as u64) & 0xffu64) << 8);
        assert(((val as u64) & 0xffu64) == val as u64) by (bit_vector);
        self.set_r64(idx, new);
    }
}

} // verus!
