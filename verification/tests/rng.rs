use pieced::rng::{Rng, SimRng, SIM_SEED};

/// Uniform in [0, 1), as the game draws it: 24 random bits over 2^24.
fn next_f32(rng: &mut Rng) -> f32 {
    rng.next_u24() as f32 / (1u64 << 24) as f32
}

#[test]
fn deterministic_and_in_range() {
    let mut a = Rng::new(7);
    let mut b = Rng::new(7);
    for _ in 0..1000 {
        let x = next_f32(&mut a);
        assert_eq!(x, next_f32(&mut b));
        assert!((0.0..1.0).contains(&x));
    }
}

#[test]
fn u24_draws_are_the_top_bits_of_the_u64_draws() {
    let mut a = Rng::new(123);
    let mut b = Rng::new(123);
    for _ in 0..100 {
        let wide = a.next_u64();
        let narrow = b.next_u24();
        assert_eq!(narrow as u64, wide >> 40);
        assert!(narrow < 1 << 24);
    }
    assert_eq!(a, b);
}

#[test]
fn different_seeds_give_different_streams() {
    let mut a = Rng::new(1);
    let mut b = Rng::new(2);
    let xs: Vec<u64> = (0..8).map(|_| a.next_u64()).collect();
    let ys: Vec<u64> = (0..8).map(|_| b.next_u64()).collect();
    assert_ne!(xs, ys);
}

#[test]
fn forks_are_reproducible_and_depend_on_the_salt() {
    let mut a = Rng::new(9);
    let mut b = Rng::new(9);
    let mut fa = a.fork(5);
    let mut fb = b.fork(5);
    assert_eq!(fa.next_u64(), fb.next_u64());
    assert_eq!(a, b);
    let mut c = Rng::new(9);
    let mut fc = c.fork(6);
    let mut fa2 = Rng::new(9).fork(5);
    assert_ne!(fc.next_u64(), fa2.next_u64());
}

#[test]
fn sim_stream_starts_from_its_seed() {
    let mut sim = SimRng::default();
    let mut direct = Rng::new(SIM_SEED);
    assert_eq!(sim.0.next_u64(), direct.next_u64());
}
