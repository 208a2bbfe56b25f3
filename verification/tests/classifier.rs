//! Biome classifier: registration order, boundary policy, the classic rules.

use worldgen::biome::{BiomeRegistry, BiomeRule, SpawnRule};
use worldgen::biomes::{register_biomes, DesertBiome, RiverBiome};

fn rule(tag: &str, h: (i64, i64), m: (i64, i64), t: (i64, i64), tile: &str) -> BiomeRule {
    BiomeRule {
        type_tag: tag.to_string(),
        height_min: h.0,
        height_max: h.1,
        moisture_min: m.0,
        moisture_max: m.1,
        temperature_min: t.0,
        temperature_max: t.1,
        ground_tile_type: tile.to_string(),
        spawnable_objects: Vec::new(),
    }
}

/// Two overlapping rules both match; the one registered first wins.
#[test]
fn classifier_exclusivity_by_order() {
    let mut reg = BiomeRegistry::new();
    reg.register(rule("a", (0, 1_000_000), (0, 1_000_000), (0, 1_000_000), "sand"));
    reg.register(rule("b", (0, 1_000_000), (0, 1_000_000), (0, 1_000_000), "water"));
    let found = reg.find_biome(500_000, 500_000, 500_000).expect("overlap must match");
    assert_eq!(found.type_tag, "a");
}

/// A rule with height in [0.5, 1.0]: exactly 0.5 matches, just below does not.
#[test]
fn boundary_inclusivity() {
    let mut reg = BiomeRegistry::new();
    reg.register(rule("high", (500_000, 1_000_000), (0, 1_000_000), (0, 1_000_000), "sand"));
    assert!(reg.find_biome(500_000, 0, 0).is_some());
    assert!(reg.find_biome(499_999, 0, 0).is_none());
    assert!(reg.find_biome(1_000_000, 0, 0).is_some());
}

/// The classic desert rule: (0.6, 0.2, 0.8) classifies as desert with ground
/// tile sand.
#[test]
fn classic_desert_sample() {
    let mut reg = BiomeRegistry::new();
    register_biomes(&mut reg);
    let found = reg.find_biome(600_000, 200_000, 800_000).expect("desert sample must match");
    assert_eq!(found.type_tag, "desert");
    assert_eq!(found.ground_tile_type, "sand");
    assert_eq!(found.spawnable_objects.len(), 1);
    assert_eq!(found.spawnable_objects[0].object_type, "cactus");
    assert_eq!(found.spawnable_objects[0].probability, 60_000);
}

/// Low ground is river up to the beach band, which runs to half height.
#[test]
fn classic_river_and_beach_bands() {
    let mut reg = BiomeRegistry::new();
    register_biomes(&mut reg);
    assert_eq!(reg.find_biome(0, 500_000, 500_000).unwrap().type_tag, "river");
    assert_eq!(reg.find_biome(480_000, 500_000, 500_000).unwrap().type_tag, "river");
    assert_eq!(reg.find_biome(480_001, 500_000, 500_000).unwrap().type_tag, "beach");
    assert_eq!(reg.find_biome(500_000, 400_000, 500_000).unwrap().type_tag, "beach");
    assert_eq!(reg.find_biome(500_001, 400_000, 500_000).unwrap().type_tag, "plains");
}

/// The classic rule set has a gap: warm but not hot desert-dry land matches
/// nothing, and the classifier reports that rather than guessing.
#[test]
fn classic_rules_leave_a_gap() {
    let mut reg = BiomeRegistry::new();
    register_biomes(&mut reg);
    assert!(reg.find_biome(600_000, 400_000, 800_000).is_none());
}

/// The per-biome predicate methods agree with their registered rule data.
#[test]
fn biome_methods_match_rules() {
    let desert = DesertBiome;
    assert_eq!(desert.get_type_tag(), "desert");
    assert_eq!(desert.get_ground_tile_type(), "sand");
    assert!(desert.is_suitable(500_000, 300_000, 700_000));
    assert!(!desert.is_suitable(499_999, 300_000, 700_000));
    assert!(!desert.is_suitable(500_000, 300_001, 700_000));
    assert!(!desert.is_suitable(500_000, 300_000, 699_999));
    let river = RiverBiome;
    assert!(river.is_suitable(480_000, 0, 0));
    assert!(!river.is_suitable(480_001, 0, 0));
    let r = desert.rule();
    assert_eq!(r.type_tag, "desert");
    assert_eq!(r.height_min, 500_000);
    assert_eq!(r.moisture_max, 300_000);
    assert_eq!(r.temperature_min, 700_000);
}

/// A rule list with an early narrow rule and a late broad one: samples
/// outside the narrow ranges fall through to the broad rule.
#[test]
fn fall_through_to_later_rule() {
    let mut reg = BiomeRegistry::new();
    reg.register(rule("narrow", (0, 100), (0, 100), (0, 100), "sand"));
    let mut broad = rule("broad", (0, 1_000_000), (0, 1_000_000), (0, 1_000_000), "water");
    broad.spawnable_objects.push(SpawnRule { object_type: "tree".to_string(), probability: 0 });
    reg.register(broad);
    assert_eq!(reg.find_biome(50, 50, 50).unwrap().type_tag, "narrow");
    assert_eq!(reg.find_biome(101, 50, 50).unwrap().type_tag, "broad");
}
