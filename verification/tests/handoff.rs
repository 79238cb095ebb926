//! The handoff channels: event counters, the bounded receive queue, and
//! the interrupt-safe lock protocol.

use bringup_core::com::RxQueue;
use bringup_core::events::EventCounters;
use bringup_core::irq_mutex::{restore_flags, save_and_disable, CpuFlags, IrqMutex};

#[test]
fn ticks_accumulate_exactly() {
    let mut c = EventCounters::new(55);
    for _ in 0..110 {
        c.record_tick();
    }
    assert_eq!(c.ticks(), 110);
}

#[test]
fn threshold_55_with_110_ticks_defers_two_units() {
    let mut c = EventCounters::new(55);
    for _ in 0..110 {
        c.record_tick();
    }
    assert_eq!(c.drain_pending(), 2);
    assert_eq!(c.drain_pending(), 0);
    assert_eq!(c.ticks(), 110);
}

#[test]
fn drains_between_ticks_lose_no_crossing() {
    let mut c = EventCounters::new(55);
    let mut drained = 0;
    for i in 0..110 {
        c.record_tick();
        if i % 17 == 0 {
            drained += c.drain_pending();
        }
    }
    drained += c.drain_pending();
    assert_eq!(drained, 2);
}

#[test]
fn tick_below_threshold_defers_nothing() {
    let mut c = EventCounters::new(55);
    for _ in 0..54 {
        c.record_tick();
    }
    assert_eq!(c.pending(), 0);
    c.record_tick();
    assert_eq!(c.pending(), 1);
}

#[test]
fn fifo_round_trip_within_capacity() {
    let mut q = RxQueue::new();
    for b in 0..100u8 {
        assert!(q.enqueue(b));
    }
    let out = q.drain();
    assert_eq!(out.len(), 100);
    for (i, b) in out.iter().enumerate() {
        assert_eq!(*b as usize, i);
    }
    assert_eq!(q.drain().len(), 0);
}

#[test]
fn capacity_256_of_300_attempts_keeps_earliest_256() {
    let mut q = RxQueue::new();
    let mut accepted = 0;
    for i in 0..300usize {
        if q.enqueue((i % 256) as u8) {
            accepted += 1;
        }
    }
    assert_eq!(accepted, 256);
    let out = q.drain();
    assert_eq!(out.len(), 256);
    for (i, b) in out.iter().enumerate() {
        assert_eq!(*b as usize, i % 256);
    }
}

#[test]
fn burst_enqueue_drops_only_overflow() {
    let mut q = RxQueue::new();
    let burst: Vec<u8> = (0..=255u8).collect();
    q.enqueue_burst(&burst);
    q.enqueue_burst(&burst);
    let out = q.drain();
    assert_eq!(out.len(), 256);
    assert_eq!(out, burst);
}

#[test]
fn dequeue_is_oldest_first() {
    let mut q = RxQueue::new();
    q.enqueue(7);
    q.enqueue(8);
    assert_eq!(q.dequeue(), Some(7));
    assert_eq!(q.dequeue(), Some(8));
    assert_eq!(q.dequeue(), None);
}

#[test]
fn empty_queue_and_empty_burst() {
    let mut q = RxQueue::new();
    assert_eq!(q.dequeue(), None);
    q.enqueue_burst(&Vec::new());
    assert_eq!(q.drain().len(), 0);
}

#[test]
fn exactly_full_queue_accepts_nothing_more() {
    let mut q = RxQueue::new();
    for b in 0..=255u8 {
        assert!(q.enqueue(b));
    }
    assert!(!q.enqueue(0));
    assert_eq!(q.dequeue(), Some(0));
    assert!(q.enqueue(77));
    let out = q.drain();
    assert_eq!(out.len(), 256);
    assert_eq!(out[0], 1);
    assert_eq!(out[255], 77);
}

#[test]
fn nested_lock_restores_pre_acquisition_state() {
    for initial in [false, true] {
        let mut cpu = CpuFlags { interrupts_enabled: initial };
        let saved_a = save_and_disable(&mut cpu);
        assert!(!cpu.interrupts_enabled);
        let saved_b = save_and_disable(&mut cpu);
        assert!(!cpu.interrupts_enabled);
        restore_flags(&mut cpu, saved_b);
        assert!(!cpu.interrupts_enabled);
        restore_flags(&mut cpu, saved_a);
        assert_eq!(cpu.interrupts_enabled, initial);
    }
}

#[test]
fn lock_grants_access_only_in_critical_section() {
    let mut cpu = CpuFlags::boot();
    cpu.enable_interrupts();
    let mut shared = IrqMutex::new(0u32);
    let saved = save_and_disable(&mut cpu);
    *shared.get_mut(&cpu) += 41;
    *shared.get_mut(&cpu) += 1;
    restore_flags(&mut cpu, saved);
    assert!(cpu.is_enabled());
    let saved = save_and_disable(&mut cpu);
    assert_eq!(*shared.get(&cpu), 42);
    restore_flags(&mut cpu, saved);
}
