use smallvcm::XorShift128Plus;

#[test]
fn unseeded_stream() {
    let mut rng = XorShift128Plus::new_unseeded();
    assert_eq!(rng.next_u64(), 0x7cd1dbcae7a60afc);
    assert_eq!(rng.next_u64(), 0xa30f7d40d80a5a88);
    assert_eq!(rng.next_u64(), 0x3ca9fbb2c0c0d187);
}

#[test]
fn next_u32_truncates() {
    let mut rng = XorShift128Plus::new_unseeded();
    assert_eq!(rng.next_u32(), 3886418684);
    assert_eq!(rng.next_u32(), 3624557192);
}

#[test]
fn worker_seeded_stream() {
    let mut rng = XorShift128Plus::from_seed([0, 1235]);
    assert_eq!(rng.next_u64(), 2470);
    assert_eq!(rng.next_u64(), 10360011155);
}

#[test]
fn reseed_restarts_stream() {
    let mut a = XorShift128Plus::new_unseeded();
    a.next_u64();
    a.reseed([0, 1235]);
    let mut b = XorShift128Plus::from_seed([0, 1235]);
    for _ in 0..10 {
        assert_eq!(a.next_u64(), b.next_u64());
    }
}

#[test]
fn distinct_seeds_distinct_streams() {
    let mut a = XorShift128Plus::from_seed([0, 1234]);
    let mut b = XorShift128Plus::from_seed([0, 1235]);
    assert_ne!(a.next_u64(), b.next_u64());
}
