//! The per-core local interrupt controller.
//!
//! The local controller owns three fixed vectors (timer, error, spurious)
//! and the periodic timer that drives deferred work. Its hardware handle
//! cannot be shared across execution contexts, so the controller keeps a
//! once-initialized state: before initialization every operation is a
//! safe no-op, never fatal. The model here carries the configured values
//! as plain data; the register programming that applies them is done
//! outside the library from exactly these values.

use vstd::prelude::*;

verus! {

/// Vector of the periodic timer interrupt.
pub const TIMER_VECTOR: u8 = 0x20;

/// Vector the controller reports internal errors on.
pub const ERROR_VECTOR: u8 = 0x21;

/// Vector for spurious interrupts, by convention the highest one.
pub const SPURIOUS_VECTOR: u8 = 0xFF;

/// Countdown divide ratio the boot path programs the timer with.
pub const APIC_TIMER_DIVIDE: u32 = 16;

/// Initial countdown value the boot path arms the timer with.
pub const APIC_TIMER_INITIAL: u32 = 500_000;

/// Divide ratio a freshly built controller handle carries before the boot
/// path programs its own.
pub const DEFAULT_TIMER_DIVIDE: u32 = 1;

/// Initial countdown a freshly built controller handle carries.
pub const DEFAULT_TIMER_INITIAL: u32 = 10_000_000;

/// The configuration a built local controller carries.
pub struct LapicConfig {
    pub timer_vector: u8,
    pub error_vector: u8,
    pub spurious_vector: u8,
    /// Countdown divide ratio.
    pub timer_divide: u32,
    /// Timer re-arms itself each time the countdown reaches zero.
    pub timer_periodic: bool,
    /// Countdown start value.
    pub timer_initial: u32,
    /// The controller delivers interrupts.
    pub software_enabled: bool,
    /// The timer countdown is running.
    pub timer_armed: bool,
}

/// The local controller transitions once, at boot.
pub enum LapicState {
    Uninitialized,
    Initialized(LapicConfig),
}

/// The configuration a controller holds right after being built: the
/// three vectors chosen at boot, build defaults for the timer, nothing
/// enabled yet.
pub open spec fn built_config(c: LapicConfig) -> bool {
    &&& c.timer_vector == TIMER_VECTOR
    &&& c.error_vector == ERROR_VECTOR
    &&& c.spurious_vector == SPURIOUS_VECTOR
    &&& c.timer_divide == DEFAULT_TIMER_DIVIDE
    &&& c.timer_periodic
    &&& c.timer_initial == DEFAULT_TIMER_INITIAL
    &&& !c.software_enabled
    &&& !c.timer_armed
}

/// The configuration after the boot path has enabled the controller and
/// armed the periodic timer.
pub open spec fn armed_config(c: LapicConfig) -> bool {
    &&& c.timer_vector == TIMER_VECTOR
    &&& c.error_vector == ERROR_VECTOR
    &&& c.spurious_vector == SPURIOUS_VECTOR
    &&& c.timer_divide == APIC_TIMER_DIVIDE
    &&& c.timer_periodic
    &&& c.timer_initial == APIC_TIMER_INITIAL
    &&& c.software_enabled
    &&& c.timer_armed
}

/// The local controller: uninitialized at boot, then the carried
/// configuration. Its view is that state.
pub struct Lapic {
    state: LapicState,
}

impl View for Lapic {
    type V = LapicState;

    closed spec fn view(&self) -> LapicState {
        self.state
    }
}

impl Lapic {
    /// The controller before boot touches it.
    pub fn new() -> (l: Lapic)
        ensures
            l@ is Uninitialized,
    {
        Lapic { state: LapicState::Uninitialized }
    }

    /// Build the controller handle: assign the three fixed vectors and
    /// take the build defaults for the timer. Transitions once; the boot
    /// path calls this exactly once.
    pub fn init(&mut self)
        ensures
            final(self)@ matches LapicState::Initialized(c) && built_config(c),
    {
        self.state = LapicState::Initialized(
            LapicConfig {
                timer_vector: TIMER_VECTOR,
                error_vector: ERROR_VECTOR,
                spurious_vector: SPURIOUS_VECTOR,
                timer_divide: DEFAULT_TIMER_DIVIDE,
                timer_periodic: true,
                timer_initial: DEFAULT_TIMER_INITIAL,
                software_enabled: false,
                timer_armed: false,
            },
        );
    }

    /// Enable interrupt delivery and arm the periodic timer with the boot
    /// divide ratio and countdown. A safe no-op before initialization.
    pub fn enable(&mut self)
        ensures
            old(self)@ is Uninitialized ==> final(self)@ == old(self)@,
            old(self)@ matches LapicState::Initialized(c) ==> final(self)@
                == LapicState::Initialized(
                (LapicConfig {
                    timer_divide: APIC_TIMER_DIVIDE,
                    timer_periodic: true,
                    timer_initial: APIC_TIMER_INITIAL,
                    software_enabled: true,
                    timer_armed: true,
                    ..c
                }),
            ),
    {
        match &self.state {
            LapicState::Uninitialized => {},
            LapicState::Initialized(c) => {
                self.state = LapicState::Initialized(
                    LapicConfig {
                        timer_vector: c.timer_vector,
                        error_vector: c.error_vector,
                        spurious_vector: c.spurious_vector,
                        timer_divide: APIC_TIMER_DIVIDE,
                        timer_periodic: true,
                        timer_initial: APIC_TIMER_INITIAL,
                        software_enabled: true,
                        timer_armed: true,
                    },
                );
            },
        }
    }

    /// Acknowledge the interrupt in service, permitting further same- and
    /// lower-priority delivery. A safe no-op before initialization; the
    /// returned flag says whether an acknowledgment was actually issued.
    pub fn eof(&mut self) -> (acked: bool)
        ensures
            final(self)@ == old(self)@,
            acked == old(self)@ is Initialized,
    {
        match &self.state {
            LapicState::Uninitialized => false,
            LapicState::Initialized(_) => true,
        }
    }
}

} // verus!
