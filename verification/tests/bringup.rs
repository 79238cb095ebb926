//! Controller configuration, the boot sequence, diagnostics formatting,
//! and the mainline drain cycle.

use bringup_core::com::COM1_IRQ;
use bringup_core::fpu::{cr0_for_sse, cr4_for_sse, xmm_test_patterns, FxSaveAligned};
use bringup_core::ioapic::{com1_redirection_entry, IrqMode, COM1_VECTOR, VECTOR_OFFSET};
use bringup_core::irq_mutex::CpuFlags;
use bringup_core::kernel::{
    com1_interrupt_handler, drain_events, error_interrupt_handler, init, report_received,
    spurious_interrupt_handler, timer_interrupt_handler, Handler, KernelState, VectorTable,
    TICKS_PER_3_SECONDS,
};
use bringup_core::lapic::{Lapic, ERROR_VECTOR, SPURIOUS_VECTOR, TIMER_VECTOR};
use bringup_core::mem::copy_bytes;
use bringup_core::pic::{LegacyPics, PIC_1_OFFSET, PIC_2_OFFSET};
use bringup_core::serial::SerialWriter;

#[test]
fn legacy_disable_writes_all_ones_to_both_masks() {
    let mut pics = LegacyPics::new(PIC_1_OFFSET, PIC_2_OFFSET);
    pics.disable();
    assert_eq!(pics.primary_mask, 0xFF);
    assert_eq!(pics.secondary_mask, 0xFF);
    assert_eq!(pics.primary_offset, 0x20);
    assert_eq!(pics.secondary_offset, 0x28);
}

#[test]
fn device_line_entry_is_offset_plus_irq_fixed_core0_no_flags() {
    let e = com1_redirection_entry();
    assert_eq!(e.vector, VECTOR_OFFSET + COM1_IRQ);
    assert_eq!(e.vector, 0x24);
    assert!(matches!(e.mode, IrqMode::Fixed));
    assert_eq!(e.dest, 0);
    assert!(!e.flags.logical_dest);
    assert!(!e.flags.low_active);
    assert!(!e.flags.level_triggered);
    assert!(!e.flags.masked);
    let (low, high) = e.encode();
    assert_eq!(low, 0x24);
    assert_eq!(high, 0);
}

#[test]
fn configured_vectors_distinct_and_above_reserved() {
    let vectors = [TIMER_VECTOR, ERROR_VECTOR, SPURIOUS_VECTOR, COM1_VECTOR];
    for (i, a) in vectors.iter().enumerate() {
        assert!(*a >= VECTOR_OFFSET);
        for b in vectors.iter().skip(i + 1) {
            assert_ne!(*a, *b);
        }
    }
}

#[test]
fn boot_init_configures_everything_then_unmasks() {
    let mut state = KernelState::new(TICKS_PER_3_SECONDS);
    let mut cpu = CpuFlags::boot();
    assert!(!cpu.is_enabled());
    init(&mut state, &mut cpu);
    assert!(cpu.is_enabled());
    assert_eq!(state.pics.primary_mask, 0xFF);
    assert_eq!(state.pics.secondary_mask, 0xFF);
    assert_eq!(*state.vectors.handler_for(TIMER_VECTOR), Some(Handler::Timer));
    assert_eq!(*state.vectors.handler_for(ERROR_VECTOR), Some(Handler::Error));
    assert_eq!(*state.vectors.handler_for(SPURIOUS_VECTOR), Some(Handler::Spurious));
    assert_eq!(*state.vectors.handler_for(COM1_VECTOR), Some(Handler::DeviceReceive));
    assert_eq!(*state.vectors.handler_for(0), None);
    let line = state.io.line(COM1_IRQ);
    assert_eq!(line.vector, COM1_VECTOR);
    assert!(!line.flags.masked);
    let other = state.io.line(COM1_IRQ + 1);
    assert!(other.flags.masked);
}

#[test]
fn uninitialized_controller_operations_are_safe_noops() {
    let mut lapic = Lapic::new();
    assert!(!lapic.eof());
    lapic.enable();
    assert!(!lapic.eof());
    lapic.init();
    lapic.enable();
    assert!(lapic.eof());
}

#[test]
fn hex_formatting_is_byte_exact() {
    let mut w = SerialWriter::new();
    w.write_hex_u8(0xAB);
    assert_eq!(w.output().as_slice(), b"ab");
    let mut w = SerialWriter::new();
    w.write_hex_u8(0x09);
    assert_eq!(w.output().as_slice(), b"09");
    let mut w = SerialWriter::new();
    w.write_hex_u32(0xDEADBEEF);
    assert_eq!(w.output().as_slice(), b"deadbeef");
    let mut w = SerialWriter::new();
    w.write_hex_u32(0x20);
    assert_eq!(w.output().as_slice(), b"00000020");
}

#[test]
fn decimal_formatting_is_byte_exact() {
    for (v, text) in [(0u8, "0"), (7, "7"), (10, "10"), (55, "55"), (100, "100"), (255, "255")] {
        let mut w = SerialWriter::new();
        w.write_dec_u8(v);
        assert_eq!(w.output().as_slice(), text.as_bytes());
    }
}

#[test]
fn lines_end_with_carriage_return_line_feed() {
    let mut w = SerialWriter::new();
    w.write_line("tick");
    assert_eq!(w.output().as_slice(), b"tick\r\n");
    let taken = w.take_output();
    assert_eq!(taken, b"tick\r\n");
    assert!(w.output().is_empty());
}

#[test]
fn sse_control_register_values() {
    let cr0 = cr0_for_sse(0xFFFF_FFFF);
    assert_eq!(cr0 & 0x4, 0); // emulation off
    assert_eq!(cr0 & 0x8, 0); // task-switched off
    assert_eq!(cr0 & 0x2, 0x2); // monitor on
    assert_eq!(cr0, 0xFFFF_FFF3);
    assert_eq!(cr0_for_sse(0), 0x2);
    let cr4 = cr4_for_sse(0);
    assert_eq!(cr4, 0x600);
    assert_eq!(cr4_for_sse(0x600), 0x600);
}

#[test]
fn zeroed_save_area_is_all_zero() {
    let area = FxSaveAligned::new_zeroed();
    assert_eq!(area.0.mxcsr, 0);
    assert_eq!(area.0.fcw, 0);
    assert!(area.0.xmm.iter().all(|row| row.iter().all(|b| *b == 0)));
    assert!(area.0.st_mm.iter().all(|row| row.iter().all(|b| *b == 0)));
}

#[test]
fn xmm_patterns_are_the_seeds_in_le_order() {
    let (low, high) = xmm_test_patterns();
    let expected: Vec<u8> = vec![
        0x77, 0x66, 0x55, 0x44, 0x33, 0x22, 0x11, 0x00, 0xFF, 0xEE, 0xDD, 0xCC, 0xBB, 0xAA, 0x99,
        0x88,
    ];
    assert_eq!(low, expected);
    let mut reversed = expected.clone();
    reversed.reverse();
    assert_eq!(high, reversed);
}

#[test]
fn vector_table_loads_once_and_reads_back() {
    let mut t = VectorTable::new();
    t.set_handler(0x21, Handler::Error);
    t.load();
    assert_eq!(*t.handler_for(0x21), Some(Handler::Error));
    assert_eq!(*t.handler_for(0x22), None);
}

#[test]
fn copy_bytes_copies_prefix_and_keeps_tail() {
    let src = vec![1u8, 2, 3, 4];
    let mut dest = vec![9u8, 9, 9, 9, 9, 9];
    copy_bytes(&mut dest, &src, 3);
    assert_eq!(dest, vec![1, 2, 3, 9, 9, 9]);
}

fn zero_dump_lines() -> String {
    format!(
        "=== fxsave64 ===\r\nmxcsr=0x00000000\r\nxmm00={}\r\nxmm15={}\r\n",
        "00".repeat(16),
        "00".repeat(16)
    )
}

#[test]
fn drain_cycle_reports_deferred_work_and_received_bytes() {
    let mut state = KernelState::new(2);
    let mut tty = SerialWriter::new();
    let area = FxSaveAligned::new_zeroed();
    for _ in 0..4 {
        timer_interrupt_handler(&mut state);
    }
    let received = vec![b'H', b'i'];
    com1_interrupt_handler(&mut state, &received);
    let next = drain_events(&mut state, &mut tty, 0, &area.0);
    assert_eq!(next, 2);
    let expected = format!(
        "tick 0x00\r\n{}tick 0x01\r\n{}COM1 RX: 0x48 ('H')\r\nCOM1 RX: 0x69 ('i')\r\n",
        zero_dump_lines(),
        zero_dump_lines()
    );
    assert_eq!(
        String::from_utf8(tty.output().clone()).unwrap(),
        expected
    );
    assert_eq!(state.counters.pending(), 0);
    assert_eq!(state.counters.ticks(), 4);
    let empty_cycle = drain_events(&mut state, &mut tty, next, &area.0);
    assert_eq!(empty_cycle, 2);
}

#[test]
fn error_and_spurious_handlers_change_nothing() {
    let mut state = KernelState::new(55);
    timer_interrupt_handler(&mut state);
    error_interrupt_handler(&mut state);
    spurious_interrupt_handler(&mut state);
    assert_eq!(state.counters.ticks(), 1);
    assert_eq!(state.counters.pending(), 0);
}

#[test]
fn idle_drain_cycle_emits_nothing() {
    let mut state = KernelState::new(TICKS_PER_3_SECONDS);
    let mut tty = SerialWriter::new();
    let area = FxSaveAligned::new_zeroed();
    let next = drain_events(&mut state, &mut tty, 9, &area.0);
    assert_eq!(next, 9);
    assert!(tty.output().is_empty());
}

#[test]
fn empty_string_writes_nothing() {
    let mut w = SerialWriter::new();
    w.write_str("");
    assert!(w.output().is_empty());
    w.write_hex_u8(0x00);
    w.write_hex_u8(0xFF);
    assert_eq!(w.output().as_slice(), b"00ff");
}

#[test]
fn received_byte_report_format() {
    let mut tty = SerialWriter::new();
    report_received(&mut tty, 0x41);
    assert_eq!(tty.output().as_slice(), b"COM1 RX: 0x41 ('A')\r\n");
}
