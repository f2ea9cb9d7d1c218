use blinky::blink::Blinker;
use blinky::delay::CYCLES_PER_ITER;

#[test]
fn first_write_turns_led_on() {
    let mut b = Blinker::new(4);
    assert_eq!(b.write_count(), 0);
    assert_eq!(b.last_write(), None);
    b.step();
    assert_eq!(b.write_count(), 1);
    assert_eq!(b.last_write(), Some(1));
}

#[test]
fn trace_alternates_strictly() {
    // The written words alternate between bit0=1 and bit0=0, starting on.
    let mut b = Blinker::new(3);
    b.run(7);
    assert_eq!(b.write_count(), 7);
    for i in 0..7 {
        let expected: u32 = if i % 2 == 0 { 1 } else { 0 };
        assert_eq!(b.write_at(i), expected);
    }
    for i in 0..6 {
        assert_ne!(b.write_at(i) % 2, b.write_at(i + 1) % 2);
    }
}

#[test]
fn clock_counts_one_full_delay_per_write() {
    let mut b = Blinker::new(5);
    b.run(4);
    assert_eq!(b.clock(), 4 * 5 * CYCLES_PER_ITER);
    assert_eq!(b.write_count() as u64 * 5 * CYCLES_PER_ITER, b.clock());
    // With a nonzero iteration count, writes cannot outnumber elapsed cycles.
    assert!((b.write_count() as u64) <= b.clock());
}

#[test]
fn zero_iteration_delay_still_toggles() {
    let mut b = Blinker::new(0);
    b.run(3);
    assert_eq!(b.write_count(), 3);
    assert_eq!(b.clock(), 0);
    assert_eq!(b.write_at(0), 1);
    assert_eq!(b.write_at(1), 0);
    assert_eq!(b.write_at(2), 1);
}

#[test]
fn getters_report_the_configuration() {
    let b = Blinker::new(42);
    assert_eq!(b.iters(), 42);
    assert!(!b.is_faulted());
    assert_eq!(b.clock(), 0);
}

#[test]
fn fault_stops_all_further_writes() {
    let mut b = Blinker::new(2);
    b.run(3);
    assert_eq!(b.write_count(), 3);
    let held = b.last_write();
    let clock_at_fault = b.clock();
    b.fault();
    assert!(b.is_faulted());
    b.run(10);
    b.step();
    assert_eq!(b.write_count(), 3);
    assert_eq!(b.last_write(), held);
    assert_eq!(b.clock(), clock_at_fault);
}

#[test]
fn fault_before_first_write_leaves_register_untouched() {
    let mut b = Blinker::new(2);
    b.fault();
    b.run(5);
    assert_eq!(b.write_count(), 0);
    assert_eq!(b.last_write(), None);
}
