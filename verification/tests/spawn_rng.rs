//! The spawn-trial random source.

use worldgen::rng::SpawnRng;

/// Every draw lies in [0, 1) in fixed point.
#[test]
fn draws_are_in_unit_interval() {
    let mut rng = SpawnRng::new(0xDEAD_BEEF);
    for _ in 0..10_000 {
        let d = rng.draw_unit();
        assert!((0..1_000_000).contains(&d));
    }
}

/// The stream is a pure function of the seed.
#[test]
fn stream_is_deterministic() {
    let mut a = SpawnRng::new(424_242);
    let mut b = SpawnRng::new(424_242);
    for _ in 0..1_000 {
        assert_eq!(a.draw_unit(), b.draw_unit());
    }
}

/// Different seeds give different streams.
#[test]
fn seeds_give_different_streams() {
    let mut a = SpawnRng::new(1);
    let mut b = SpawnRng::new(2);
    let mut differs = false;
    for _ in 0..100 {
        if a.draw_unit() != b.draw_unit() {
            differs = true;
        }
    }
    assert!(differs);
}

/// A probability-0.5 trial over 100,000 draws succeeds with observed
/// frequency within one percent of one half.
#[test]
fn half_probability_frequency() {
    let mut rng = SpawnRng::new(2024);
    let trials = 100_000;
    let mut hits = 0u32;
    for _ in 0..trials {
        if rng.draw_unit() < 500_000 {
            hits += 1;
        }
    }
    assert!((49_000..=51_000).contains(&hits), "observed {hits} of {trials}");
}

/// Exact regression values for one stream seed.
#[test]
fn exact_draws_for_seed_99() {
    let mut r = SpawnRng::new(99);
    assert_eq!(r.draw_unit(), 23_147);
    assert_eq!(r.draw_unit(), 371_508);
}
