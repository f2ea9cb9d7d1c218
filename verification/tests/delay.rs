use blinky::delay::{delay, CYCLES_PER_ITER};

#[test]
fn delay_cost_is_exact_and_deterministic() {
    // A busy-wait of n iterations costs exactly n * CYCLES_PER_ITER cycles,
    // the same on every call.
    assert_eq!(delay(0), 0);
    assert_eq!(delay(1), CYCLES_PER_ITER);
    assert_eq!(delay(5), 5 * CYCLES_PER_ITER);
    assert_eq!(delay(1_000_000), 1_000_000 * CYCLES_PER_ITER);
    assert_eq!(delay(1_000_000), delay(1_000_000));
}

#[test]
fn delay_cost_is_nonzero() {
    assert!(delay(1) > 0);
    assert!(delay(1_000_000) > 0);
}

#[test]
fn delay_is_monotonic() {
    // More iterations never cost fewer cycles.
    let samples: [usize; 5] = [0, 1, 2, 100, 1_000_000];
    let mut previous: u64 = 0;
    for n in samples {
        let cycles = delay(n);
        assert!(cycles >= previous);
        previous = cycles;
    }
}
