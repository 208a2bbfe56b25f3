//! Chunk generation: reproducibility, shape, spawn trials, robustness.

use worldgen::biome::{BiomeRegistry, BiomeRule, SpawnRule};
use worldgen::generator::{generate_chunk, init_registries};
use worldgen::objects::{register_objects, ObjectRegistry};
use worldgen::tiles::{register_tiles, TileRegistry};

fn catch_all_rule(tile: &str, spawns: Vec<SpawnRule>) -> BiomeRule {
    BiomeRule {
        type_tag: "everything".to_string(),
        height_min: 0,
        height_max: 1_000_000,
        moisture_min: 0,
        moisture_max: 1_000_000,
        temperature_min: 0,
        temperature_max: 1_000_000,
        ground_tile_type: tile.to_string(),
        spawnable_objects: spawns,
    }
}

/// Seed 42, chunk (0,0): two builds agree element for element, in tile tags,
/// tile positions and object positions.
#[test]
fn scenario_seed_42_reproducible() {
    let (tiles, objects, biomes) = init_registries();
    let a = generate_chunk((0, 0), 42, &tiles, &objects, &biomes);
    let b = generate_chunk((0, 0), 42, &tiles, &objects, &biomes);
    assert_eq!(a.pos, (0, 0));
    assert_eq!(a.tiles.len(), b.tiles.len());
    for (ta, tb) in a.tiles.iter().zip(b.tiles.iter()) {
        assert_eq!(ta.type_tag, tb.type_tag);
        assert_eq!((ta.x, ta.y), (tb.x, tb.y));
    }
    assert_eq!(a.objects.len(), b.objects.len());
    for (oa, ob) in a.objects.iter().zip(b.objects.iter()) {
        assert_eq!(oa.type_tag, ob.type_tag);
        assert_eq!((oa.x, oa.y), (ob.x, ob.y));
    }
}

/// With a rule set covering everything and a complete tile registry, a chunk
/// has exactly 16 * 16 tiles, each at the tile-grid position of its cell.
#[test]
fn chunk_shape_with_full_coverage() {
    let mut tiles = TileRegistry::new();
    register_tiles(&mut tiles);
    let objects = ObjectRegistry::new();
    let mut biomes = BiomeRegistry::new();
    biomes.register(catch_all_rule("sand", Vec::new()));
    let chunk = generate_chunk((3, -2), 99, &tiles, &objects, &biomes);
    assert_eq!(chunk.tiles.len(), 256);
    for (k, t) in chunk.tiles.iter().enumerate() {
        let k = k as i64;
        assert_eq!(t.x, (3 * 16 + k % 16) * 16);
        assert_eq!(t.y, (-2 * 16 + k / 16) * 16);
    }
    // First tile: the chunk origin in pixels.
    assert_eq!((chunk.tiles[0].x, chunk.tiles[0].y), (768, -512));
}

/// A spawn probability of 1.0 spawns on every matching cell; 0.0 never does.
#[test]
fn spawn_certain_and_never() {
    let mut tiles = TileRegistry::new();
    register_tiles(&mut tiles);
    let mut objects = ObjectRegistry::new();
    register_objects(&mut objects);

    let mut always = BiomeRegistry::new();
    always.register(catch_all_rule(
        "sand",
        vec![SpawnRule { object_type: "tree".to_string(), probability: 1_000_000 }],
    ));
    let chunk = generate_chunk((0, 0), 7, &tiles, &objects, &always);
    assert_eq!(chunk.objects.len(), 256);
    for (k, o) in chunk.objects.iter().enumerate() {
        let k = k as i64;
        assert_eq!(o.type_tag, "tree");
        assert_eq!(o.x, (k % 16) * 16);
        assert_eq!(o.y, (k / 16) * 16);
    }

    let mut never = BiomeRegistry::new();
    never.register(catch_all_rule(
        "sand",
        vec![SpawnRule { object_type: "tree".to_string(), probability: 0 }],
    ));
    let chunk = generate_chunk((0, 0), 7, &tiles, &objects, &never);
    assert_eq!(chunk.objects.len(), 0);
}

/// Generation completes with an incomplete registry: unknown tile and object
/// identifiers are skipped per cell, not fatal.
#[test]
fn incomplete_registry_is_not_fatal() {
    let empty_tiles = TileRegistry::new();
    let empty_objects = ObjectRegistry::new();
    let mut biomes = BiomeRegistry::new();
    biomes.register(catch_all_rule(
        "sand",
        vec![SpawnRule { object_type: "tree".to_string(), probability: 1_000_000 }],
    ));
    let chunk = generate_chunk((5, 5), 1, &empty_tiles, &empty_objects, &biomes);
    assert_eq!(chunk.tiles.len(), 0);
    assert_eq!(chunk.objects.len(), 0);

    // The classic rule set against an empty catalog also completes.
    let (_, _, classic) = init_registries();
    let chunk = generate_chunk((0, 0), 42, &empty_tiles, &empty_objects, &classic);
    assert_eq!(chunk.tiles.len(), 0);
    assert_eq!(chunk.objects.len(), 0);
}

/// With the classic catalog, every placed tile carries a registered tag and
/// every placed object sits on a cell of the chunk.
#[test]
fn classic_generation_is_well_formed() {
    let (tiles, objects, biomes) = init_registries();
    let chunk = generate_chunk((-4, 9), 123_456, &tiles, &objects, &biomes);
    assert!(chunk.tiles.len() <= 256);
    for t in &chunk.tiles {
        assert!(
            t.type_tag == "grass" || t.type_tag == "sand" || t.type_tag == "snowgrass"
                || t.type_tag == "water"
        );
        assert_eq!(t.x % 16, 0);
        assert_eq!(t.y % 16, 0);
        let cx = t.x.div_euclid(16).div_euclid(16);
        let cy = t.y.div_euclid(16).div_euclid(16);
        assert_eq!((cx, cy), (-4, 9));
    }
    for o in &chunk.objects {
        assert!(o.type_tag == "tree" || o.type_tag == "snow_tree" || o.type_tag == "cactus");
    }
}

/// Distant chunk coordinates see different terrain: generation depends on
/// the coordinate, not only on the seed.
#[test]
fn chunks_differ_by_coordinate() {
    let (tiles, objects, biomes) = init_registries();
    let base = generate_chunk((0, 0), 42, &tiles, &objects, &biomes);
    let base_tags: Vec<&str> = base.tiles.iter().map(|t| t.type_tag.as_str()).collect();
    let mut differs = false;
    for pos in [(200, 200), (-300, 100), (57, -123), (1000, -1000)] {
        let other = generate_chunk(pos, 42, &tiles, &objects, &biomes);
        let tags: Vec<&str> = other.tiles.iter().map(|t| t.type_tag.as_str()).collect();
        if base.tiles.len() != other.tiles.len() || base_tags != tags {
            differs = true;
        }
    }
    assert!(differs);
}
