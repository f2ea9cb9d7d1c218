use blinky::gpo::Gpo;

#[test]
fn fresh_register_has_no_writes() {
    let g = Gpo::new();
    assert_eq!(g.write_count(), 0);
    assert_eq!(g.last_write(), None);
}

#[test]
fn writes_are_recorded_in_order() {
    let mut g = Gpo::new();
    g.write(1);
    g.write(0);
    g.write(7);
    assert_eq!(g.write_count(), 3);
    assert_eq!(g.value_at(0), 1);
    assert_eq!(g.value_at(1), 0);
    assert_eq!(g.value_at(2), 7);
    assert_eq!(g.last_write(), Some(7));
}
