//! Interrupt-safe mutual exclusion.
//!
//! On a single logical core, forcing hardware interrupts off is total
//! mutual exclusion: no second execution context can run while they are
//! off. The primitive here follows the save / disable / restore protocol:
//! capture the interrupt-enable flag, force interrupts off, work, then
//! restore exactly the captured state — never unconditionally re-enable.
//! An inner critical section therefore observes "already disabled",
//! restores "disabled", and only the outermost section re-enables.
//!
//! The interrupt-enable flag itself is processor state. It is modeled
//! here as an explicit [`CpuFlags`] value threaded through the code, so
//! every property of the protocol is checked; the two instructions that
//! read and write the real flag live outside the library.

use vstd::prelude::*;

verus! {

/// The processor state the protocol manipulates: the interrupt-enable
/// flag of the one logical core.
pub struct CpuFlags {
    pub interrupts_enabled: bool,
}

/// The flag state after a save-and-disable step, whatever it held before.
pub open spec fn disabled_flags() -> CpuFlags {
    CpuFlags { interrupts_enabled: false }
}

/// The flag state after restoring a captured value.
pub open spec fn restored_flags(saved: bool) -> CpuFlags {
    CpuFlags { interrupts_enabled: saved }
}

impl CpuFlags {
    /// Boot hands control over with interrupts disabled.
    pub fn boot() -> (c: CpuFlags)
        ensures
            !c.interrupts_enabled,
    {
        CpuFlags { interrupts_enabled: false }
    }

    /// Whether interrupt delivery is currently allowed.
    pub fn is_enabled(&self) -> (b: bool)
        ensures
            b == self.interrupts_enabled,
    {
        self.interrupts_enabled
    }

    /// The global "allow interrupts" step, taken once at the end of boot,
    /// after every controller is configured.
    pub fn enable_interrupts(&mut self)
        ensures
            final(self).interrupts_enabled,
    {
        self.interrupts_enabled = true;
    }
}

/// Capture the interrupt-enable flag and force interrupts off. Returns
/// the captured state, to be handed back to [`restore_flags`].
pub fn save_and_disable(cpu: &mut CpuFlags) -> (saved: bool)
    ensures
        saved == old(cpu).interrupts_enabled,
        *final(cpu) == disabled_flags(),
{
    let saved = cpu.interrupts_enabled;
    cpu.interrupts_enabled = false;
    saved
}

/// Restore the captured flag state: re-enable only if interrupts were
/// enabled before the matching save, else leave them off. Called at the
/// end of a critical section, so interrupts are still off on entry.
pub fn restore_flags(cpu: &mut CpuFlags, saved: bool)
    requires
        !old(cpu).interrupts_enabled,
    ensures
        *final(cpu) == restored_flags(saved),
{
    if saved {
        self_enable(cpu);
    }
}

/// The one place the flag is turned back on while unwinding a critical
/// section.
fn self_enable(cpu: &mut CpuFlags)
    ensures
        final(cpu).interrupts_enabled,
{
    cpu.interrupts_enabled = true;
}

/// Mutual exclusion for state shared between interrupt handlers and
/// mainline code. The data is reachable only while interrupts are off,
/// which on a single core rules out every concurrent access.
pub struct IrqMutex<T> {
    data: T,
}

impl<T> View for IrqMutex<T> {
    type V = T;

    closed spec fn view(&self) -> T {
        self.data
    }
}

impl<T> IrqMutex<T> {
    /// Wrap `data`; access from now on only inside a critical section.
    pub fn new(data: T) -> (m: IrqMutex<T>)
        ensures
            m@ == data,
    {
        IrqMutex { data }
    }

    /// Exclusive access to the protected data. Demanding that interrupts
    /// are off makes every caller enter a critical section first: a
    /// handler cannot preempt the borrow.
    pub fn get_mut<'a>(&'a mut self, cpu: &CpuFlags) -> (r: &'a mut T)
        requires
            !cpu.interrupts_enabled,
        ensures
            *r == old(self)@,
            final(self)@ == *final(r),
    {
        &mut self.data
    }

    /// Read access under the same protocol.
    pub fn get<'a>(&'a self, cpu: &CpuFlags) -> (r: &'a T)
        requires
            !cpu.interrupts_enabled,
        ensures
            *r == self@,
    {
        &self.data
    }
}

/// Law: for any starting flag state, a critical section around a critical
/// section (enter A, enter B, leave B, leave A) keeps interrupts disabled
/// from the first entry to the last exit, the inner exit does not
/// re-enable them, and the last exit restores exactly the pre-A state.
pub proof fn lemma_nested_critical_sections(c0: CpuFlags)
    ensures
        ({
            let c1 = disabled_flags();  // after entering A, which captured c0
            let c2 = disabled_flags();  // after entering B, which captured c1
            let c3 = restored_flags(c1.interrupts_enabled);  // after leaving B
            let c4 = restored_flags(c0.interrupts_enabled);  // after leaving A
            &&& !c1.interrupts_enabled
            &&& !c2.interrupts_enabled
            &&& !c3.interrupts_enabled
            &&& c4 == c0
        }),
{
}

} // verus!
