use blinky::blink::Blinker;

#[test]
fn million_iterations_at_one_megahertz_blinks_about_once_a_second() {
    // The reference configuration: 1,000,000 busy-wait iterations between
    // writes, on a simulated 1 MHz core clock. Each phase (LED on, LED off)
    // must last on the order of a second: neither sub-millisecond flicker
    // nor a multi-minute stall.
    const CLOCK_HZ: u64 = 1_000_000;
    let mut b = Blinker::new(1_000_000);
    b.run(2); // one full period: on-phase and off-phase
    assert_eq!(b.write_count(), 2);
    assert_eq!(b.write_at(0), 1);
    assert_eq!(b.write_at(1), 0);

    let period_cycles = b.clock();
    let phase_cycles = period_cycles / 2;
    // The two phases cost the same, so the period splits evenly.
    assert_eq!(phase_cycles * 2, period_cycles);

    let phase_ms = phase_cycles * 1000 / CLOCK_HZ;
    assert!(phase_ms >= 1, "sub-millisecond flicker: {} ms", phase_ms);
    assert!(phase_ms <= 60_000, "multi-minute stall: {} ms", phase_ms);
    // And it really is on the order of one second.
    assert!((100..=10_000).contains(&phase_ms), "phase of {} ms", phase_ms);
}
