//! Noise field: determinism and normalization.

use worldgen::generator::WorldGenerator;

/// For a fixed seed and coordinate, two independent generators produce
/// identical samples.
#[test]
fn determinism_fixed_seed() {
    let a = WorldGenerator::new(42);
    let b = WorldGenerator::new(42);
    for wx in [-2000i64, -17, 0, 1, 33, 4096, 123_456] {
        for wy in [-999i64, -1, 0, 7, 512, 65_535] {
            let s1 = a.get_values(wx, wy);
            let s2 = b.get_values(wx, wy);
            assert_eq!(s1.height, s2.height);
            assert_eq!(s1.moisture, s2.moisture);
            assert_eq!(s1.temperature, s2.temperature);
        }
    }
}

/// Two calls on the same generator agree as well.
#[test]
fn determinism_same_generator() {
    let g = WorldGenerator::new(7);
    let s1 = g.get_values(1234, -5678);
    let s2 = g.get_values(1234, -5678);
    assert_eq!(s1, s2);
}

/// Over 10,000 pseudo-randomly chosen coordinates, every channel lies in
/// [0, 1] (fixed point: [0, 1_000_000]).
#[test]
fn normalization_ten_thousand_coordinates() {
    let g = WorldGenerator::new(987_654_321);
    // Simple linear-congruential coordinate scrambler for the test alone.
    let mut state: u64 = 0x1234_5678_9abc_def0;
    for _ in 0..10_000 {
        state = state.wrapping_mul(6364136223846793005).wrapping_add(1442695040888963407);
        let wx = ((state >> 16) % 2_000_001) as i64 - 1_000_000;
        state = state.wrapping_mul(6364136223846793005).wrapping_add(1442695040888963407);
        let wy = ((state >> 16) % 2_000_001) as i64 - 1_000_000;
        let s = g.get_values(wx, wy);
        assert!(0 <= s.height && s.height <= 1_000_000);
        assert!(0 <= s.moisture && s.moisture <= 1_000_000);
        assert!(0 <= s.temperature && s.temperature <= 1_000_000);
    }
}

/// Different seeds give different terrain somewhere.
#[test]
fn seeds_decorrelate() {
    let a = WorldGenerator::new(1);
    let b = WorldGenerator::new(2);
    let mut differs = false;
    for wx in 0..64i64 {
        let s1 = a.get_values(wx * 100, 0);
        let s2 = b.get_values(wx * 100, 0);
        if s1 != s2 {
            differs = true;
        }
    }
    assert!(differs);
}

/// Exact regression values for one seed: the sampler's output is part of the
/// library's deterministic behavior, stable across runs and machines.
#[test]
fn exact_values_for_seed_42() {
    let g = worldgen::generator::WorldGenerator::new(42);
    let s = g.get_values(0, 0);
    assert_eq!((s.height, s.moisture, s.temperature), (720_269, 573_211, 478_734));
    let t = g.get_values(100, -250);
    assert_eq!((t.height, t.moisture, t.temperature), (419_808, 536_684, 609_041));
}
