//! Tile and object prototype registries.

use worldgen::objects::{register_objects, Cactus, ObjectRegistry, Tree};
use worldgen::tiles::{register_tiles, SandTile, TileRegistry, WaterTile};

/// Lookup by identifier returns a fresh copy of the matching prototype;
/// unknown identifiers return nothing.
#[test]
fn create_tile_by_id() {
    let mut reg = TileRegistry::new();
    register_tiles(&mut reg);
    for tag in ["grass", "sand", "snowgrass", "water"] {
        let t = reg.create_tile_by_id(tag).expect("catalog tile is registered");
        assert_eq!(t.get_type_tag(), tag);
        assert_eq!(t.get_pos(), (0, 0));
    }
    assert!(reg.create_tile_by_id("lava").is_none());
}

/// A created instance is independently owned: moving it does not move the
/// prototype.
#[test]
fn created_tiles_are_independent() {
    let mut reg = TileRegistry::new();
    reg.register(SandTile::new((0, 0)).as_tile());
    let mut first = reg.create_tile_by_id("sand").unwrap();
    first.set_pos(640, -320);
    let second = reg.create_tile_by_id("sand").unwrap();
    assert_eq!(first.get_pos(), (640, -320));
    assert_eq!(second.get_pos(), (0, 0));
}

/// Two prototypes under one tag: lookup returns a copy of the first.
#[test]
fn first_registered_prototype_wins() {
    let mut reg = TileRegistry::new();
    reg.register(WaterTile::new((1, 2)).as_tile());
    reg.register(WaterTile::new((3, 4)).as_tile());
    let t = reg.create_tile_by_id("water").unwrap();
    assert_eq!(t.get_pos(), (1, 2));
}

/// Object registry: catalog contents and sizes.
#[test]
fn create_object_by_id() {
    let mut reg = ObjectRegistry::new();
    register_objects(&mut reg);
    let tree = reg.create_object_by_id("tree").expect("tree is registered");
    assert_eq!(tree.get_type_tag(), "tree");
    assert_eq!(tree.get_size(), (16, 32));
    let cactus = reg.create_object_by_id("cactus").expect("cactus is registered");
    assert_eq!(cactus.get_size(), (16, 16));
    let snow_tree = reg.create_object_by_id("snow_tree").expect("snow tree is registered");
    assert_eq!(snow_tree.get_size(), (16, 32));
    let player = reg.create_object_by_id("player").expect("player is registered");
    assert_eq!(player.get_type_tag(), "player");
    assert_eq!(player.get_size(), (16, 16));
    assert!(reg.create_object_by_id("ghost").is_none());
}

/// The concrete tile and object types report the catalog's data.
#[test]
fn concrete_types_report_catalog_data() {
    let mut sand = SandTile::new((5, 6));
    assert_eq!(sand.get_type_tag(), "sand");
    assert_eq!(sand.get_pos(), (5, 6));
    assert_eq!(sand.get_size(), (16, 16));
    sand.set_pos((7, 8));
    assert_eq!(sand.get_pos(), (7, 8));

    let mut tree = Tree::new((1, 1));
    assert_eq!(tree.get_type_tag(), "tree");
    tree.set_size((32, 64));
    assert_eq!(tree.get_size(), (32, 64));
    assert_eq!(tree.get_pos(), (1, 1));

    let cactus = Cactus::new((9, 9));
    assert_eq!(cactus.get_type_tag(), "cactus");
    assert_eq!(cactus.as_object().get_pos(), (9, 9));
}
