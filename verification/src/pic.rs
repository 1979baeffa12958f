//! Mask state of the two cascaded programmable interrupt controllers.
//!
//! Each controller gates its eight IRQ lines with one 8-bit mask register:
//! bit N set means line N is suppressed. Masking or unmasking a line is a
//! read-modify-write that touches exactly the bit of the target line. The
//! register bytes themselves are read from and written back to the two fixed
//! I/O ports at the hardware edge; this module owns the bit-level rule.

use vstd::prelude::*;

verus! {

/// In-memory image of the two PIC mask registers: `primary` gates IRQ lines
/// 0-7, `secondary` gates lines 8-15 (rebased by 8).
#[derive(Clone, Copy, Debug, PartialEq, Eq, Structural)]
pub struct PicMasks {
    pub primary: u8,
    pub secondary: u8,
}

/// The register image after masking line `irq`.
pub open spec fn spec_set_mask(m: PicMasks, irq: u8) -> PicMasks
    recommends
        irq < 16,
{
    if irq < 8 {
        PicMasks { primary: m.primary | (1u8 << irq), secondary: m.secondary }
    } else {
        PicMasks { primary: m.primary, secondary: m.secondary | (1u8 << (irq - 8)) }
    }
}

/// The register image after unmasking line `irq`.
pub open spec fn spec_clear_mask(m: PicMasks, irq: u8) -> PicMasks
    recommends
        irq < 16,
{
    if irq < 8 {
        PicMasks { primary: m.primary & !(1u8 << irq), secondary: m.secondary }
    } else {
        PicMasks { primary: m.primary, secondary: m.secondary & !(1u8 << (irq - 8)) }
    }
}

/// Whether line `irq` is masked in the image `m`.
pub open spec fn spec_masked(m: PicMasks, irq: u8) -> bool
    recommends
        irq < 16,
{
    if irq < 8 {
        m.primary & (1u8 << irq) != 0
    } else {
        m.secondary & (1u8 << (irq - 8)) != 0
    }
}

/// Suppress delivery of IRQ line `irq`: set exactly its bit in the register
/// image, preserving every other bit.
pub fn set_irq_mask(masks: &mut PicMasks, irq: u8)
    requires
        irq < 16,
    ensures
        *final(masks) == spec_set_mask(*old(masks), irq),
        spec_masked(*final(masks), irq),
{
    if irq < 8 {
        masks.primary = masks.primary | (1u8 << irq);
        proof {
            let p = masks.primary;
            assert(p & (1u8 << irq) != 0) by (bit_vector)
                requires
                    irq < 8,
                    exists|q: u8| p == q | (1u8 << irq),
            ;
        }
    } else {
        let line = irq - 8;
        masks.secondary = masks.secondary | (1u8 << line);
        proof {
            let s = masks.secondary;
            assert(s & (1u8 << line) != 0) by (bit_vector)
                requires
                    line < 8,
                    exists|q: u8| s == q | (1u8 << line),
            ;
        }
    }
}

/// Allow delivery of IRQ line `irq`: clear exactly its bit in the register
/// image, preserving every other bit.
pub fn clear_irq_mask(masks: &mut PicMasks, irq: u8)
    requires
        irq < 16,
    ensures
        *final(masks) == spec_clear_mask(*old(masks), irq),
        !spec_masked(*final(masks), irq),
{
    if irq < 8 {
        masks.primary = masks.primary & !(1u8 << irq);
        proof {
            let p = masks.primary;
            assert(p & (1u8 << irq) == 0) by (bit_vector)
                requires
                    exists|q: u8| p == q & !(1u8 << irq),
            ;
        }
    } else {
        let line = irq - 8;
        masks.secondary = masks.secondary & !(1u8 << line);
        proof {
            let s = masks.secondary;
            assert(s & (1u8 << line) == 0) by (bit_vector)
                requires
                    exists|q: u8| s == q & !(1u8 << line),
            ;
        }
    }
}

/// Masking and then unmasking a line never disturbs any other line: every
/// bit but the target's reads the same before and after the pair of writes.
pub proof fn lemma_set_then_clear_preserves_others(m: PicMasks, irq: u8, other: u8)
    requires
        irq < 16,
        other < 16,
        other != irq,
    ensures
        spec_masked(spec_clear_mask(spec_set_mask(m, irq), irq), other) == spec_masked(m, other),
{
    let p = m.primary;
    let s = m.secondary;
    if irq < 8 && other < 8 {
        assert(((p | (1u8 << irq)) & !(1u8 << irq)) & (1u8 << other) == p & (1u8 << other))
            by (bit_vector)
            requires
                irq < 8,
                other < 8,
                other != irq,
        ;
    } else if irq >= 8 && other >= 8 {
        let i = (irq - 8) as u8;
        let o = (other - 8) as u8;
        assert(((s | (1u8 << i)) & !(1u8 << i)) & (1u8 << o) == s & (1u8 << o))
            by (bit_vector)
            requires
                i < 8,
                o < 8,
                o != i,
        ;
    }
}

/// Masking and then unmasking a line that was not masked to begin with
/// restores the register image exactly.
pub proof fn lemma_set_then_clear_round_trip(m: PicMasks, irq: u8)
    requires
        irq < 16,
        !spec_masked(m, irq),
    ensures
        spec_clear_mask(spec_set_mask(m, irq), irq) == m,
{
    let p = m.primary;
    let s = m.secondary;
    if irq < 8 {
        assert((p | (1u8 << irq)) & !(1u8 << irq) == p) by (bit_vector)
            requires
                irq < 8,
                p & (1u8 << irq) == 0,
        ;
    } else {
        let i = (irq - 8) as u8;
        assert((s | (1u8 << i)) & !(1u8 << i) == s) by (bit_vector)
            requires
                i < 8,
                s & (1u8 << i) == 0,
        ;
    }
}

} // verus!
