//! Register-access primitives and the bit-level lemmas the drivers build on.
//!
//! A hardware register is one 32-bit cell of a register block. The two
//! read-modify-write primitives below are the only way the drivers combine a
//! read and a write on a cell; their contracts state the exact new value, and
//! the exclusivity guarantee of the ownership guard makes the read-then-write
//! pair safe without hardware locking.

use vstd::prelude::*;

verus! {

/// Read a register cell, OR the given value into it, and write it back.
pub fn register_volatile_or(reg: &mut u32, value: u32)
    ensures
        *final(reg) == (*old(reg) | value),
{
    *reg = *reg | value;
}

/// Read a register cell, AND the given value into it, and write it back.
pub fn register_volatile_and(reg: &mut u32, value: u32)
    ensures
        *final(reg) == (*old(reg) & value),
{
    *reg = *reg & value;
}

/// A masked read-modify-write inverse law: OR-ing a mask into a register and
/// then AND-ing the mask's complement back restores the original value,
/// provided the masked bits were clear to begin with. (When a masked bit is
/// already set -- for instance register 1 with mask 1 -- the pair clears it
/// instead, so such registers are excluded.)
pub proof fn lemma_or_then_and_complement_restores(r: u32, m: u32)
    by (bit_vector)
    requires
        r & m == 0,
    ensures
        ((r | m) & !m) == r,
{
}

/// Setting one bit makes that bit read back as one.
pub proof fn lemma_set_bit_same(w: u32, b: u32)
    by (bit_vector)
    requires
        b < 32,
    ensures
        ((w | (1u32 << b)) >> b) & 1 == 1,
{
}

/// Setting one bit leaves every other bit unchanged.
pub proof fn lemma_set_bit_other(w: u32, b: u32, c: u32)
    by (bit_vector)
    requires
        b < 32,
        c < 32,
        b != c,
    ensures
        ((w | (1u32 << b)) >> c) & 1 == (w >> c) & 1,
{
}

/// Clearing one bit makes that bit read back as zero.
pub proof fn lemma_clear_bit_same(w: u32, b: u32)
    by (bit_vector)
    requires
        b < 32,
    ensures
        ((w & !(1u32 << b)) >> b) & 1 == 0,
{
}

/// Clearing one bit leaves every other bit unchanged.
pub proof fn lemma_clear_bit_other(w: u32, b: u32, c: u32)
    by (bit_vector)
    requires
        b < 32,
        c < 32,
        b != c,
    ensures
        ((w & !(1u32 << b)) >> c) & 1 == (w >> c) & 1,
{
}

/// Writing a 3-bit field: after the masked clear and the OR of the new
/// encoding, the field at the same shift reads back as that encoding.
pub proof fn lemma_field_update_same(w: u32, s: u32, f: u32)
    by (bit_vector)
    requires
        s <= 27,
        f < 8,
    ensures
        (((w & !(7u32 << s)) | (f << s)) >> s) & 7 == f,
{
}

/// Writing a 3-bit field leaves every non-overlapping 3-bit field unchanged.
pub proof fn lemma_field_update_other(w: u32, s: u32, t: u32, f: u32)
    by (bit_vector)
    requires
        s <= 27,
        t <= 27,
        s + 3 <= t || t + 3 <= s,
        f < 8,
    ensures
        ((((w & !(7u32 << s)) | (f << s)) >> t) & 7) == ((w >> t) & 7),
{
}

/// A 3-bit field extraction is always one of the eight encodings.
pub proof fn lemma_field_extract_bound(w: u32, s: u32)
    by (bit_vector)
    ensures
        (w >> s) & 7 < 8,
{
}

} // verus!
