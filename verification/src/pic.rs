//! The legacy cascaded interrupt controller pair.
//!
//! The newer local/I-O controller path and the legacy pair can claim the
//! same physical lines, so before interrupts are globally unmasked every
//! line of the legacy pair must be silenced: all-ones are written to both
//! of its mask registers. This module models the two mask registers as
//! plain bytes; the port writes that carry the values to the hardware live
//! outside the library.

use vstd::prelude::*;

verus! {

/// Vector offset the primary legacy controller would use if it stayed active.
pub const PIC_1_OFFSET: u8 = 0x20;

/// Vector offset the secondary legacy controller would use if it stayed active.
pub const PIC_2_OFFSET: u8 = 0x28;

/// Mask byte with every line silenced: all bits set.
pub const ALL_LINES_MASKED: u8 = 0xFF;

/// The mask registers of the cascaded legacy controller pair, one byte per
/// controller, together with the vector offsets the pair was programmed with.
/// Bit `i` of a mask register set means line `i` of that controller is
/// silenced.
pub struct LegacyPics {
    pub primary_offset: u8,
    pub secondary_offset: u8,
    pub primary_mask: u8,
    pub secondary_mask: u8,
}

/// True when line `line` (0..8) of a controller with mask byte `mask` is
/// silenced.
pub open spec fn line_masked(mask: u8, line: u8) -> bool {
    mask & (1u8 << line) != 0
}

/// True when both legacy controllers have every line silenced.
pub open spec fn fully_masked(p: LegacyPics) -> bool {
    p.primary_mask == ALL_LINES_MASKED && p.secondary_mask == ALL_LINES_MASKED
}

impl LegacyPics {
    /// A legacy controller pair as the boot path first sees it: offsets
    /// recorded, no line silenced yet.
    pub fn new(primary_offset: u8, secondary_offset: u8) -> (p: LegacyPics)
        ensures
            p.primary_offset == primary_offset,
            p.secondary_offset == secondary_offset,
            p.primary_mask == 0,
            p.secondary_mask == 0,
    {
        LegacyPics { primary_offset, secondary_offset, primary_mask: 0, secondary_mask: 0 }
    }

    /// Write both mask registers at once.
    pub fn write_masks(&mut self, primary: u8, secondary: u8)
        ensures
            final(self).primary_mask == primary,
            final(self).secondary_mask == secondary,
            final(self).primary_offset == old(self).primary_offset,
            final(self).secondary_offset == old(self).secondary_offset,
    {
        self.primary_mask = primary;
        self.secondary_mask = secondary;
    }

    /// Disable the legacy pair by writing all-ones to both mask registers,
    /// so no line can be delivered through the legacy path.
    pub fn disable(&mut self)
        ensures
            fully_masked(*final(self)),
            final(self).primary_mask == ALL_LINES_MASKED,
            final(self).secondary_mask == ALL_LINES_MASKED,
            final(self).primary_offset == old(self).primary_offset,
            final(self).secondary_offset == old(self).secondary_offset,
    {
        self.write_masks(ALL_LINES_MASKED, ALL_LINES_MASKED);
    }
}

/// With all-ones in a mask register, every one of its eight lines is
/// silenced.
pub proof fn lemma_all_ones_masks_every_line(line: u8)
    requires
        line < 8,
    ensures
        line_masked(ALL_LINES_MASKED, line),
{
    assert(line < 8 ==> 0xFFu8 & (1u8 << line) != 0) by (bit_vector);
}

} // verus!
