//! The kernel-state aggregate: vector table, controllers, handoff
//! channels, the interrupt handlers' state updates, and the mainline
//! drain cycle.
//!
//! Control flow at boot: populate the vector table, silence the legacy
//! controller pair, configure the local and I/O controllers, and only
//! then allow interrupt delivery. Afterwards the handlers below run on
//! interrupt context and mutate nothing but the handoff entities, and
//! the mainline loop wakes, drains, reports and sleeps again.

use vstd::prelude::*;
use vstd::string::StringSliceAdditionalSpecFns;
use crate::com::{enqueue_all, RxQueue, COM1_IRQ, RX_CAPACITY};
use crate::events::{drain_model, tick_model, EventCounters};
use crate::fpu::FxSaveArea;
use crate::serial::{hex_pair, hex_quad, SerialWriter, CR, LF};
use crate::ioapic::{
    com1_redirection_entry, IoApic, IrqFlags, IrqMode, RedirectionEntry, COM1_VECTOR, DEST_CPU,
    VECTOR_OFFSET,
};
use crate::irq_mutex::CpuFlags;
use crate::lapic::{armed_config, Lapic, LapicState, ERROR_VECTOR, SPURIOUS_VECTOR, TIMER_VECTOR};
use crate::pic::{fully_masked, LegacyPics, PIC_1_OFFSET, PIC_2_OFFSET};

verus! {

/// Entries of the vector table.
pub const VECTOR_COUNT: usize = 256;

/// Ticks between two deferred-work units (about three seconds of timer
/// interrupts at the boot countdown).
pub const TICKS_PER_3_SECONDS: u64 = 55;

/// The handlers this system wires into its vector table.
#[derive(Clone, Copy, Debug, PartialEq, Eq, Structural)]
pub enum Handler {
    /// Counts ticks and queues deferred work.
    Timer,
    /// Acknowledges controller errors.
    Error,
    /// Acknowledges spurious deliveries.
    Spurious,
    /// Moves received bytes into the handoff queue.
    DeviceReceive,
}

/// The vector table: one entry per vector, each used entry naming its
/// handler. Populated during boot and then loaded exactly once; immutable
/// thereafter. Its view is the sequence of entries.
pub struct VectorTable {
    entries: Vec<Option<Handler>>,
    loaded: bool,
}

impl View for VectorTable {
    type V = Seq<Option<Handler>>;

    closed spec fn view(&self) -> Seq<Option<Handler>> {
        self.entries@
    }
}

impl VectorTable {
    /// The table has one entry per vector.
    pub open spec fn well_formed(&self) -> bool {
        self@.len() == VECTOR_COUNT
    }

    /// Whether the table has been handed to the processor.
    pub closed spec fn is_loaded(&self) -> bool {
        self.loaded
    }

    /// An empty table: no vector populated, not loaded.
    pub fn new() -> (t: VectorTable)
        ensures
            t.well_formed(),
            !t.is_loaded(),
            forall|i: int| 0 <= i < VECTOR_COUNT ==> t@[i] is None,
    {
        let mut entries: Vec<Option<Handler>> = Vec::new();
        let mut i: usize = 0;
        while i < VECTOR_COUNT
            invariant
                i <= VECTOR_COUNT,
                entries@.len() == i,
                forall|j: int| 0 <= j < i ==> entries@[j] is None,
            decreases VECTOR_COUNT - i,
        {
            entries.push(None);
            i = i + 1;
        }
        VectorTable { entries, loaded: false }
    }

    /// Wire `handler` to `vector`. Only possible before the table is
    /// loaded: loaded tables are immutable.
    pub fn set_handler(&mut self, vector: u8, handler: Handler)
        requires
            old(self).well_formed(),
            !old(self).is_loaded(),
        ensures
            final(self).well_formed(),
            !final(self).is_loaded(),
            final(self)@ == old(self)@.update(vector as int, Some(handler)),
    {
        self.entries.set(vector as usize, Some(handler));
    }

    /// Hand the table to the processor. Happens exactly once.
    pub fn load(&mut self)
        requires
            !old(self).is_loaded(),
        ensures
            final(self).is_loaded(),
            final(self)@ == old(self)@,
    {
        self.loaded = true;
    }

    /// The entry of one vector.
    pub fn handler_for(&self, vector: u8) -> (h: &Option<Handler>)
        requires
            self.well_formed(),
        ensures
            *h == self@[vector as int],
    {
        &self.entries[vector as usize]
    }
}

/// Everything the bring-up owns, passed by reference into handler
/// registration and the mainline loop: no hidden global state.
pub struct KernelState {
    /// Timer-to-mainline handoff counters.
    pub counters: EventCounters,
    /// Device-to-mainline handoff queue.
    pub rx: RxQueue,
    /// The per-core local controller.
    pub lapic: Lapic,
    /// The vector table.
    pub vectors: VectorTable,
    /// The legacy controller pair, to be silenced.
    pub pics: LegacyPics,
    /// The I/O controller routing device lines.
    pub io: IoApic,
}

impl KernelState {
    /// Every component's own invariant.
    pub open spec fn well_formed(&self) -> bool {
        &&& self.counters.well_formed()
        &&& self.rx.well_formed()
        &&& self.vectors.well_formed()
        &&& self.io.well_formed()
    }

    /// The state boot starts from: nothing counted, nothing queued,
    /// controllers untouched, table unpopulated.
    pub fn new(threshold: u64) -> (s: KernelState)
        requires
            threshold > 0,
        ensures
            s.well_formed(),
            s.counters@.ticks == 0,
            s.counters@.pending == 0,
            s.counters@.threshold == threshold,
            s.rx@ == Seq::<u8>::empty(),
            s.lapic@ is Uninitialized,
            !s.vectors.is_loaded(),
            forall|i: int| 0 <= i < VECTOR_COUNT ==> s.vectors@[i] is None,
    {
        KernelState {
            counters: EventCounters::new(threshold),
            rx: RxQueue::new(),
            lapic: Lapic::new(),
            vectors: VectorTable::new(),
            pics: LegacyPics::new(PIC_1_OFFSET, PIC_2_OFFSET),
            io: IoApic::new(),
        }
    }
}

/// Every vector this system uses is populated with its handler.
pub open spec fn used_vectors_populated(s: KernelState) -> bool {
    &&& s.vectors@[TIMER_VECTOR as int] == Some(Handler::Timer)
    &&& s.vectors@[ERROR_VECTOR as int] == Some(Handler::Error)
    &&& s.vectors@[SPURIOUS_VECTOR as int] == Some(Handler::Spurious)
    &&& s.vectors@[COM1_VECTOR as int] == Some(Handler::DeviceReceive)
}

/// The entry the device line holds once boot routed and unmasked it.
pub open spec fn com1_line_active(e: RedirectionEntry) -> bool {
    e == (RedirectionEntry {
        vector: COM1_VECTOR,
        mode: IrqMode::Fixed,
        flags: (IrqFlags {
            logical_dest: false,
            low_active: false,
            level_triggered: false,
            masked: false,
        }),
        dest: DEST_CPU,
    })
}

/// The global "allow interrupts" step. Demanding a loaded, fully
/// populated table and a silenced legacy pair makes the hard boot-order
/// constraint a checked precondition: nobody can unmask earlier.
pub fn allow_interrupts(state: &KernelState, cpu: &mut CpuFlags)
    requires
        used_vectors_populated(*state),
        state.vectors.is_loaded(),
        fully_masked(state.pics),
        state.lapic@ matches LapicState::Initialized(c) && armed_config(c),
    ensures
        final(cpu).interrupts_enabled,
{
    cpu.enable_interrupts();
}

/// The whole boot sequence: populate and load the vector table, silence
/// the legacy pair, configure the local controller and arm its timer,
/// route and unmask the device line, then allow delivery. The handoff
/// channels are untouched.
pub fn init(state: &mut KernelState, cpu: &mut CpuFlags)
    requires
        old(state).well_formed(),
        !old(state).vectors.is_loaded(),
        !old(cpu).interrupts_enabled,
    ensures
        final(state).well_formed(),
        used_vectors_populated(*final(state)),
        final(state).vectors.is_loaded(),
        fully_masked(final(state).pics),
        final(state).lapic@ matches LapicState::Initialized(c) && armed_config(c),
        com1_line_active(final(state).io@[COM1_IRQ as int]),
        final(state).counters@ == old(state).counters@,
        final(state).rx@ == old(state).rx@,
        final(cpu).interrupts_enabled,
{
    state.vectors.set_handler(TIMER_VECTOR, Handler::Timer);
    state.vectors.set_handler(ERROR_VECTOR, Handler::Error);
    state.vectors.set_handler(SPURIOUS_VECTOR, Handler::Spurious);
    state.vectors.set_handler(COM1_VECTOR, Handler::DeviceReceive);
    state.vectors.load();
    state.pics.disable();
    state.lapic.init();
    state.lapic.enable();
    state.io.init(VECTOR_OFFSET);
    let entry = com1_redirection_entry();
    state.io.set_table_entry(COM1_IRQ, entry);
    state.io.enable_irq(COM1_IRQ);
    allow_interrupts(state, cpu);
}

/// Law: the four configured vectors are pairwise distinct, and none lies
/// below the offset reserved for processor exceptions.
pub proof fn lemma_vector_assignment_valid()
    ensures
        TIMER_VECTOR != ERROR_VECTOR,
        TIMER_VECTOR != SPURIOUS_VECTOR,
        TIMER_VECTOR != COM1_VECTOR,
        ERROR_VECTOR != SPURIOUS_VECTOR,
        ERROR_VECTOR != COM1_VECTOR,
        SPURIOUS_VECTOR != COM1_VECTOR,
        TIMER_VECTOR >= VECTOR_OFFSET,
        ERROR_VECTOR >= VECTOR_OFFSET,
        SPURIOUS_VECTOR >= VECTOR_OFFSET,
        COM1_VECTOR >= VECTOR_OFFSET,
{
}

/// Timer interrupt: count the tick (and the crossing, if any), then
/// acknowledge. Touches nothing but the counters. No I/O happens here —
/// deferred work is queued for the mainline loop instead, to bound the
/// handler's duration.
pub fn timer_interrupt_handler(state: &mut KernelState)
    requires
        old(state).well_formed(),
        old(state).counters@.ticks < u64::MAX,
        old(state).counters@.pending < u64::MAX,
    ensures
        final(state).well_formed(),
        final(state).counters@ == tick_model(old(state).counters@),
        final(state).rx@ == old(state).rx@,
        final(state).lapic@ == old(state).lapic@,
        final(state).vectors@ == old(state).vectors@,
        final(state).pics == old(state).pics,
        final(state).io@ == old(state).io@,
{
    state.counters.record_tick();
    let _ = state.lapic.eof();
}

/// Error interrupt: acknowledge only; never escalates — there is no
/// supervisor above this layer.
pub fn error_interrupt_handler(state: &mut KernelState)
    ensures
        final(state).counters@ == old(state).counters@,
        final(state).rx@ == old(state).rx@,
        final(state).lapic@ == old(state).lapic@,
        final(state).vectors@ == old(state).vectors@,
        final(state).pics == old(state).pics,
        final(state).io@ == old(state).io@,
        final(state).well_formed() == old(state).well_formed(),
{
    let _ = state.lapic.eof();
}

/// Spurious interrupt: acknowledge only.
pub fn spurious_interrupt_handler(state: &mut KernelState)
    ensures
        final(state).counters@ == old(state).counters@,
        final(state).rx@ == old(state).rx@,
        final(state).lapic@ == old(state).lapic@,
        final(state).vectors@ == old(state).vectors@,
        final(state).pics == old(state).pics,
        final(state).io@ == old(state).io@,
        final(state).well_formed() == old(state).well_formed(),
{
    let _ = state.lapic.eof();
}

/// Device-receive interrupt: move the bytes the device signalled into
/// the handoff queue, dropping what does not fit — never blocking, never
/// escalating — then acknowledge.
pub fn com1_interrupt_handler(state: &mut KernelState, received: &Vec<u8>)
    requires
        old(state).well_formed(),
    ensures
        final(state).well_formed(),
        final(state).rx@ == enqueue_all(old(state).rx@, received@, RX_CAPACITY as nat),
        final(state).counters@ == old(state).counters@,
        final(state).lapic@ == old(state).lapic@,
        final(state).vectors@ == old(state).vectors@,
        final(state).pics == old(state).pics,
        final(state).io@ == old(state).io@,
{
    state.rx.enqueue_burst(received);
    let _ = state.lapic.eof();
}

/// A number below 100 as exactly two decimal digits.
pub open spec fn dec2_label(i: u8) -> Seq<u8> {
    seq![(0x30 + i / 10) as u8, (0x30 + i % 10) as u8]
}

/// Each byte as two hexadecimal digits, in sequence order.
pub open spec fn hex_concat(s: Seq<u8>) -> Seq<u8>
    decreases s.len(),
{
    if s.len() == 0 {
        Seq::<u8>::empty()
    } else {
        hex_concat(s.drop_last()) + hex_pair(s.last())
    }
}

/// One dumped vector register: its index as two decimal digits, then its
/// sixteen bytes in most-significant-first order.
pub open spec fn xmm_line(i: u8, bytes: Seq<u8>) -> Seq<u8> {
    "xmm".spec_bytes() + dec2_label(i) + "=".spec_bytes() + hex_concat(bytes.reverse()) + seq![
        CR,
        LF,
    ]
}

/// The register-state dump: a heading, the SIMD control/status register,
/// and the first and last vector registers.
pub open spec fn fxsave_dump(a: FxSaveArea) -> Seq<u8> {
    "=== fxsave64 ===".spec_bytes() + seq![CR, LF] + "mxcsr=0x".spec_bytes() + hex_quad(a.mxcsr)
        + seq![CR, LF] + xmm_line(0, a.xmm@[0]@) + xmm_line(15, a.xmm@[15]@)
}

/// One unit of deferred work: a tick line with its two-digit label,
/// followed by the register-state dump.
pub open spec fn tick_report(label: u8, a: FxSaveArea) -> Seq<u8> {
    "tick 0x".spec_bytes() + hex_pair(label) + seq![CR, LF] + fxsave_dump(a)
}

/// The tick label `k` reports after `label`: one byte, wrapping around.
pub open spec fn wrapped_label(label: u8, k: nat) -> u8 {
    ((label + k) % 256) as u8
}

/// `n` consecutive tick reports starting at `label`.
pub open spec fn tick_reports(label: u8, n: nat, a: FxSaveArea) -> Seq<u8>
    decreases n,
{
    if n == 0 {
        Seq::<u8>::empty()
    } else {
        tick_reports(label, (n - 1) as nat, a) + tick_report(wrapped_label(label, (n - 1) as nat), a)
    }
}

/// One received byte, reported as hexadecimal and as the raw character.
pub open spec fn rx_report(b: u8) -> Seq<u8> {
    "COM1 RX: 0x".spec_bytes() + hex_pair(b) + " ('".spec_bytes() + seq![b] + "')".spec_bytes()
        + seq![CR, LF]
}

/// The reports for a sequence of received bytes, oldest first.
pub open spec fn rx_reports(s: Seq<u8>) -> Seq<u8>
    decreases s.len(),
{
    if s.len() == 0 {
        Seq::<u8>::empty()
    } else {
        rx_reports(s.drop_last()) + rx_report(s.last())
    }
}

/// Everything one wake of the mainline loop emits: one report per pending
/// deferred-work unit, then one line per received byte.
pub open spec fn cycle_output(pending: nat, label: u8, a: FxSaveArea, rx: Seq<u8>) -> Seq<u8> {
    tick_reports(label, pending, a) + rx_reports(rx)
}

/// Emit a number below 100 as exactly two decimal digits.
fn write_dec2(tty: &mut SerialWriter, i: u8)
    requires
        i < 100,
    ensures
        final(tty)@ == old(tty)@ + dec2_label(i),
{
    tty.write_char(0x30 + i / 10);
    tty.write_char(0x30 + i % 10);
}

/// Emit sixteen register bytes most significant first, two digits each.
fn write_xmm_bytes(tty: &mut SerialWriter, bytes: &[u8; 16])
    ensures
        final(tty)@ == old(tty)@ + hex_concat(bytes@.reverse()),
{
    let ghost start = tty@;
    let ghost rev = bytes@.reverse();
    let mut i: usize = 0;
    while i < 16
        invariant
            i <= 16,
            rev == bytes@.reverse(),
            tty@ == start + hex_concat(rev.take(i as int)),
        decreases 16 - i,
    {
        tty.write_hex_u8(bytes[15 - i]);
        i = i + 1;
        proof {
            assert(rev.take(i as int).drop_last() =~= rev.take(i - 1));
            assert(rev.take(i as int).last() == bytes@[16 - i]);
            assert(tty@ =~= start + hex_concat(rev.take(i as int)));
        }
    }
    proof {
        assert(rev.take(16) =~= rev);
    }
}

/// Dump the captured register state: heading, control/status register,
/// first and last vector register.
pub fn dump_fxsave(tty: &mut SerialWriter, area: &FxSaveArea)
    ensures
        final(tty)@ == old(tty)@ + fxsave_dump(*area),
{
    tty.write_str("=== fxsave64 ===");
    tty.end_line();
    tty.write_str("mxcsr=0x");
    tty.write_hex_u32(area.mxcsr);
    tty.end_line();
    tty.write_str("xmm");
    write_dec2(tty, 0);
    tty.write_str("=");
    write_xmm_bytes(tty, &area.xmm[0]);
    tty.end_line();
    tty.write_str("xmm");
    write_dec2(tty, 15);
    tty.write_str("=");
    write_xmm_bytes(tty, &area.xmm[15]);
    tty.end_line();
}

/// Report one unit of deferred work: the tick line, then the register
/// dump.
pub fn report_tick(tty: &mut SerialWriter, label: u8, area: &FxSaveArea)
    ensures
        final(tty)@ == old(tty)@ + tick_report(label, *area),
{
    tty.write_str("tick 0x");
    tty.write_hex_u8(label);
    tty.end_line();
    dump_fxsave(tty, area);
}

/// Report one received byte.
pub fn report_received(tty: &mut SerialWriter, byte: u8)
    ensures
        final(tty)@ == old(tty)@ + rx_report(byte),
{
    tty.write_str("COM1 RX: 0x");
    tty.write_hex_u8(byte);
    tty.write_str(" ('");
    tty.write_char(byte);
    tty.write_str("')");
    tty.end_line();
}

/// Stepping a wrapped one-byte counter.
proof fn lemma_wrapped_label_step(label: u8, k: nat)
    ensures
        wrapped_label(label, k + 1) == ((wrapped_label(label, k) + 1) % 256) as u8,
{
    let x = (label + k) as nat;
    let q = x / 256;
    let r = x % 256;
    vstd::arithmetic::div_mod::lemma_fundamental_div_mod(x as int, 256);
    if r == 255 {
        assert(x + 1 == 256 * (q + 1) + 0);
        assert((q + 1) * 256 == 256 * (q + 1)) by (nonlinear_arith);
        vstd::arithmetic::div_mod::lemma_fundamental_div_mod_converse(
            x + 1 as int,
            256,
            q + 1 as int,
            0,
        );
    } else {
        assert(x + 1 == 256 * q + (r + 1));
        assert(q * 256 == 256 * q) by (nonlinear_arith);
        vstd::arithmetic::div_mod::lemma_fundamental_div_mod_converse(
            x + 1 as int,
            256,
            q as int,
            r + 1 as int,
        );
    }
}

/// One wake of the mainline loop, after the halt-until-interrupt wait:
/// swap the pending deferred-work count to zero and emit that many tick
/// reports (labels wrapping byte-wide), then drain the receive queue and
/// report every byte. Returns the label the next wake starts at.
pub fn drain_events(state: &mut KernelState, tty: &mut SerialWriter, label: u8, area: &FxSaveArea)
    -> (next_label: u8)
    requires
        old(state).well_formed(),
    ensures
        final(state).well_formed(),
        final(state).counters@ == drain_model(old(state).counters@),
        final(state).rx@.len() == 0,
        final(state).lapic@ == old(state).lapic@,
        final(state).vectors@ == old(state).vectors@,
        final(state).pics == old(state).pics,
        final(state).io@ == old(state).io@,
        final(tty)@ == old(tty)@ + cycle_output(
            old(state).counters@.pending,
            label,
            *area,
            old(state).rx@,
        ),
        next_label == wrapped_label(label, old(state).counters@.pending),
{
    let ghost start = tty@;
    let n = state.counters.drain_pending();
    let mut cur = label;
    let mut k: u64 = 0;
    while k < n
        invariant
            k <= n,
            cur == wrapped_label(label, k as nat),
            tty@ == start + tick_reports(label, k as nat, *area),
        decreases n - k,
    {
        report_tick(tty, cur, area);
        cur = if cur == 255 {
            0
        } else {
            cur + 1
        };
        k = k + 1;
        proof {
            lemma_wrapped_label_step(label, (k - 1) as nat);
        }
    }
    let received = state.rx.drain();
    let ghost mid = tty@;
    let mut i: usize = 0;
    while i < received.len()
        invariant
            i <= received@.len(),
            tty@ == mid + rx_reports(received@.take(i as int)),
        decreases received@.len() - i,
    {
        report_received(tty, received[i]);
        i = i + 1;
        proof {
            assert(received@.take(i as int).drop_last() =~= received@.take(i - 1));
            assert(tty@ =~= mid + rx_reports(received@.take(i as int)));
        }
    }
    proof {
        assert(received@.take(received@.len() as int) =~= received@);
        assert(tty@ =~= start + cycle_output(
            old(state).counters@.pending,
            label,
            *area,
            old(state).rx@,
        ));
    }
    cur
}

} // verus!
