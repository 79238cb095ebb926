//! The I/O interrupt controller: routing of external device lines.
//!
//! The controller holds one redirection entry per device line; an entry
//! names the destination vector and core, the delivery mode, and a mask
//! bit. This module models the entries and the redirection table as plain
//! values and verifies how the boot path fills them; it also computes the
//! exact pair of 32-bit register words an entry occupies in the table, so
//! the unverified side only has to store them. Vectors below
//! [`VECTOR_OFFSET`] are reserved for processor exceptions, so every
//! routed line lands at `VECTOR_OFFSET + line`.

use vstd::prelude::*;
use crate::com::COM1_IRQ;

verus! {

/// Memory-mapped base address of the I/O controller.
pub const IOAPIC_BASE: u64 = 0xFEC0_0000;

/// First vector available to interrupts; everything below is reserved for
/// processor exceptions.
pub const VECTOR_OFFSET: u8 = 0x20;

/// Vector the serial device's line is routed to.
pub const COM1_VECTOR: u8 = VECTOR_OFFSET + COM1_IRQ;

/// Core that receives routed device interrupts.
pub const DEST_CPU: u8 = 0;

/// Lines of the redirection table.
pub const REDIRECTION_LINES: usize = 24;

/// Delivery mode of a routed line.
#[derive(Clone, Copy)]
pub enum IrqMode {
    /// Assert the interrupt signal on all allowed processors.
    Fixed,
    /// Assert it on the lowest-priority processor allowed.
    LowestPriority,
    /// System management interrupt.
    SystemManagement,
    /// Assert the non-maskable signal.
    NonMaskable,
    /// Assert the initialization signal.
    Init,
    /// A signal from an externally connected controller.
    External,
}

/// The three-bit encoding of a delivery mode inside a redirection entry.
pub open spec fn irq_mode_bits(m: IrqMode) -> u32 {
    match m {
        IrqMode::Fixed => 0,
        IrqMode::LowestPriority => 1,
        IrqMode::SystemManagement => 2,
        IrqMode::NonMaskable => 4,
        IrqMode::Init => 5,
        IrqMode::External => 7,
    }
}

/// The writable flag bits of a redirection entry.
#[derive(Clone, Copy)]
pub struct IrqFlags {
    /// Logical (instead of physical) destination mode.
    pub logical_dest: bool,
    /// Low-polarity (instead of high-polarity) interrupt signal.
    pub low_active: bool,
    /// Level-triggered (instead of edge-triggered) interrupt.
    pub level_triggered: bool,
    /// The line is masked: delivery suppressed.
    pub masked: bool,
}

impl IrqFlags {
    /// No flag set.
    pub open spec fn is_empty(self) -> bool {
        !self.logical_dest && !self.low_active && !self.level_triggered && !self.masked
    }

    /// Flags with no bit set.
    pub fn empty() -> (f: IrqFlags)
        ensures
            f.is_empty(),
    {
        IrqFlags { logical_dest: false, low_active: false, level_triggered: false, masked: false }
    }

    /// Flags with only the mask bit set.
    pub fn masked_only() -> (f: IrqFlags)
        ensures
            f.masked,
            !f.logical_dest,
            !f.low_active,
            !f.level_triggered,
    {
        IrqFlags { logical_dest: false, low_active: false, level_triggered: false, masked: true }
    }
}

/// The flag bits as they sit in the low register word of an entry.
pub open spec fn irq_flag_bits(f: IrqFlags) -> u32 {
    (if f.logical_dest {
        0x800u32
    } else {
        0u32
    }) | (if f.low_active {
        0x2000u32
    } else {
        0u32
    }) | (if f.level_triggered {
        0x8000u32
    } else {
        0u32
    }) | (if f.masked {
        0x10000u32
    } else {
        0u32
    })
}

/// One redirection-table entry: where a device line is delivered.
#[derive(Clone, Copy)]
pub struct RedirectionEntry {
    /// Vector the line raises on the destination core.
    pub vector: u8,
    /// Delivery mode; routed device lines use fixed delivery.
    pub mode: IrqMode,
    /// The writable flag bits.
    pub flags: IrqFlags,
    /// Destination core.
    pub dest: u8,
}

/// The low register word of an entry: vector in the low byte, delivery
/// mode in bits 8..11, flags above.
pub open spec fn entry_low_word(e: RedirectionEntry) -> u32 {
    (e.vector as u32) | (irq_mode_bits(e.mode) << 8) | irq_flag_bits(e.flags)
}

/// The high register word of an entry: destination core in the top byte.
pub open spec fn entry_high_word(e: RedirectionEntry) -> u32 {
    (e.dest as u32) << 24
}

impl Default for RedirectionEntry {
    /// The all-zero entry: vector 0, fixed delivery, no flags, core 0.
    fn default() -> (e: RedirectionEntry)
        ensures
            e.vector == 0,
            e.mode is Fixed,
            e.flags.is_empty(),
            e.dest == 0,
    {
        RedirectionEntry { vector: 0, mode: IrqMode::Fixed, flags: IrqFlags::empty(), dest: 0 }
    }
}

impl RedirectionEntry {
    /// Set the destination vector.
    pub fn set_vector(&mut self, vector: u8)
        ensures
            final(self).vector == vector,
            final(self).mode == old(self).mode,
            final(self).flags == old(self).flags,
            final(self).dest == old(self).dest,
    {
        self.vector = vector;
    }

    /// Set the delivery mode.
    pub fn set_mode(&mut self, mode: IrqMode)
        ensures
            final(self).mode == mode,
            final(self).vector == old(self).vector,
            final(self).flags == old(self).flags,
            final(self).dest == old(self).dest,
    {
        self.mode = mode;
    }

    /// Set the writable flag bits.
    pub fn set_flags(&mut self, flags: IrqFlags)
        ensures
            final(self).flags == flags,
            final(self).vector == old(self).vector,
            final(self).mode == old(self).mode,
            final(self).dest == old(self).dest,
    {
        self.flags = flags;
    }

    /// Set the destination core.
    pub fn set_dest(&mut self, dest: u8)
        ensures
            final(self).dest == dest,
            final(self).vector == old(self).vector,
            final(self).mode == old(self).mode,
            final(self).flags == old(self).flags,
    {
        self.dest = dest;
    }

    /// The two register words the entry occupies in the hardware table.
    pub fn encode(&self) -> (r: (u32, u32))
        ensures
            r.0 == entry_low_word(*self),
            r.1 == entry_high_word(*self),
    {
        let mode_bits: u32 = match self.mode {
            IrqMode::Fixed => 0,
            IrqMode::LowestPriority => 1,
            IrqMode::SystemManagement => 2,
            IrqMode::NonMaskable => 4,
            IrqMode::Init => 5,
            IrqMode::External => 7,
        };
        let flag_bits: u32 = (if self.flags.logical_dest {
            0x800
        } else {
            0
        }) | (if self.flags.low_active {
            0x2000
        } else {
            0
        }) | (if self.flags.level_triggered {
            0x8000
        } else {
            0
        }) | (if self.flags.masked {
            0x10000
        } else {
            0
        });
        let low = (self.vector as u32) | (mode_bits << 8) | flag_bits;
        let high = (self.dest as u32) << 24;
        (low, high)
    }
}

/// The entry the boot path routes the serial device's line with: fixed
/// delivery, no flags, core [`DEST_CPU`], vector [`COM1_VECTOR`]. Built
/// field by field from the all-zero entry, as the redirection entries of
/// every routed line are.
pub fn com1_redirection_entry() -> (e: RedirectionEntry)
    ensures
        e.vector == COM1_VECTOR,
        e.mode is Fixed,
        e.flags.is_empty(),
        e.dest == DEST_CPU,
{
    let mut entry = RedirectionEntry::default();
    entry.set_mode(IrqMode::Fixed);
    entry.set_flags(IrqFlags::empty());
    entry.set_dest(DEST_CPU);
    entry.set_vector(COM1_VECTOR);
    entry
}

/// Line `i` after table initialization with `offset`: vector `offset + i`,
/// fixed delivery, core 0, masked, no other flag.
pub open spec fn line_points_at_offset(e: RedirectionEntry, offset: u8, i: int) -> bool {
    &&& e.vector == offset + i
    &&& e.mode is Fixed
    &&& e.dest == 0
    &&& e.flags.masked
    &&& !e.flags.logical_dest
    &&& !e.flags.low_active
    &&& !e.flags.level_triggered
}

/// The I/O controller's redirection table: one entry per device line.
pub struct IoApic {
    entries: Vec<RedirectionEntry>,
}

impl View for IoApic {
    type V = Seq<RedirectionEntry>;

    closed spec fn view(&self) -> Seq<RedirectionEntry> {
        self.entries@
    }
}

impl IoApic {
    /// The table has one entry per line.
    pub open spec fn well_formed(&self) -> bool {
        self@.len() == REDIRECTION_LINES
    }

    /// The controller as the boot path first sees it: every line masked,
    /// nothing routed.
    pub fn new() -> (io: IoApic)
        ensures
            io.well_formed(),
            forall|i: int|
                0 <= i < REDIRECTION_LINES ==> io@[i].flags.masked && io@[i].vector == 0,
    {
        let mut entries: Vec<RedirectionEntry> = Vec::new();
        let mut i: usize = 0;
        while i < REDIRECTION_LINES
            invariant
                i <= REDIRECTION_LINES,
                entries@.len() == i,
                forall|j: int| 0 <= j < i ==> entries@[j].flags.masked && entries@[j].vector == 0,
            decreases REDIRECTION_LINES - i,
        {
            entries.push(
                RedirectionEntry {
                    vector: 0,
                    mode: IrqMode::Fixed,
                    flags: IrqFlags::masked_only(),
                    dest: 0,
                },
            );
            i = i + 1;
        }
        IoApic { entries }
    }

    /// Initialize the table with the boot offset: line `i` is pointed at
    /// vector `offset + i`, fixed delivery, core 0, and stays masked until
    /// it is explicitly enabled.
    pub fn init(&mut self, offset: u8)
        requires
            old(self).well_formed(),
            offset + REDIRECTION_LINES <= 256,
        ensures
            final(self).well_formed(),
            forall|i: int|
                0 <= i < REDIRECTION_LINES ==> #[trigger] line_points_at_offset(
                    final(self)@[i],
                    offset,
                    i,
                ),
    {
        let mut i: usize = 0;
        while i < REDIRECTION_LINES
            invariant
                i <= REDIRECTION_LINES,
                self.well_formed(),
                offset + REDIRECTION_LINES <= 256,
                forall|j: int|
                    0 <= j < i ==> #[trigger] line_points_at_offset(self@[j], offset, j),
            decreases REDIRECTION_LINES - i,
        {
            let entry = RedirectionEntry {
                vector: offset + (i as u8),
                mode: IrqMode::Fixed,
                flags: IrqFlags::masked_only(),
                dest: 0,
            };
            self.entries.set(i, entry);
            i = i + 1;
        }
    }

    /// Route line `irq` with `entry`, leaving every other line alone.
    pub fn set_table_entry(&mut self, irq: u8, entry: RedirectionEntry)
        requires
            old(self).well_formed(),
            irq < REDIRECTION_LINES,
        ensures
            final(self).well_formed(),
            final(self)@ == old(self)@.update(irq as int, entry),
    {
        self.entries.set(irq as usize, entry);
    }

    /// Allow delivery on line `irq`: clear its mask bit, touching nothing
    /// else.
    pub fn enable_irq(&mut self, irq: u8)
        requires
            old(self).well_formed(),
            irq < REDIRECTION_LINES,
        ensures
            final(self).well_formed(),
            final(self)@ == old(self)@.update(
                irq as int,
                (RedirectionEntry {
                    flags: IrqFlags { masked: false, ..old(self)@[irq as int].flags },
                    ..old(self)@[irq as int]
                }),
            ),
    {
        let mut entry = self.entries[irq as usize];
        entry.flags.masked = false;
        self.entries.set(irq as usize, entry);
    }

    /// The entry of one line.
    pub fn line(&self, irq: u8) -> (e: &RedirectionEntry)
        requires
            self.well_formed(),
            irq < REDIRECTION_LINES,
        ensures
            *e == self@[irq as int],
    {
        &self.entries[irq as usize]
    }
}

} // verus!
