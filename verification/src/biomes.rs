//! The classic biome catalog: seven rules over the three environment
//! channels, registered in a fixed order that resolves their overlaps.
//!
//! Low ground is river below beach level; everything at or above half height
//! splits by moisture and temperature into desert, plains, forest and their
//! snowy counterparts. All range bounds are inclusive, in fixed point.

use vstd::prelude::*;
use crate::biome::{BiomeRegistry, BiomeRule, SpawnRule};
use crate::fixed::FIXED_ONE;

verus! {

pub open spec fn is_river_rule(r: BiomeRule) -> bool {
    &&& r.type_tag@ == "river"@
    &&& r.height_min == 0 && r.height_max == 480_000
    &&& r.moisture_min == 0 && r.moisture_max == FIXED_ONE
    &&& r.temperature_min == 0 && r.temperature_max == FIXED_ONE
    &&& r.ground_tile_type@ == "water"@
    &&& r.spawnable_objects@.len() == 0
}

pub open spec fn is_beach_rule(r: BiomeRule) -> bool {
    &&& r.type_tag@ == "beach"@
    &&& r.height_min == 480_000 && r.height_max == 500_000
    &&& r.moisture_min == 0 && r.moisture_max == FIXED_ONE
    &&& r.temperature_min == 0 && r.temperature_max == FIXED_ONE
    &&& r.ground_tile_type@ == "sand"@
    &&& r.spawnable_objects@.len() == 0
}

pub open spec fn is_desert_rule(r: BiomeRule) -> bool {
    &&& r.type_tag@ == "desert"@
    &&& r.height_min == 500_000 && r.height_max == FIXED_ONE
    &&& r.moisture_min == 0 && r.moisture_max == 300_000
    &&& r.temperature_min == 700_000 && r.temperature_max == FIXED_ONE
    &&& r.ground_tile_type@ == "sand"@
    &&& r.spawnable_objects@.len() == 1
    &&& r.spawnable_objects@[0].object_type@ == "cactus"@
    &&& r.spawnable_objects@[0].probability == 60_000
}

pub open spec fn is_snow_plains_rule(r: BiomeRule) -> bool {
    &&& r.type_tag@ == "snow_plains"@
    &&& r.height_min == 500_000 && r.height_max == FIXED_ONE
    &&& r.moisture_min == 0 && r.moisture_max == 500_000
    &&& r.temperature_min == 0 && r.temperature_max == 300_000
    &&& r.ground_tile_type@ == "snowgrass"@
    &&& r.spawnable_objects@.len() == 0
}

pub open spec fn is_snow_forest_rule(r: BiomeRule) -> bool {
    &&& r.type_tag@ == "snow_forest"@
    &&& r.height_min == 500_000 && r.height_max == FIXED_ONE
    &&& r.moisture_min == 500_000 && r.moisture_max == FIXED_ONE
    &&& r.temperature_min == 0 && r.temperature_max == 300_000
    &&& r.ground_tile_type@ == "snowgrass"@
    &&& r.spawnable_objects@.len() == 1
    &&& r.spawnable_objects@[0].object_type@ == "snow_tree"@
    &&& r.spawnable_objects@[0].probability == 100_000
}

pub open spec fn is_plains_rule(r: BiomeRule) -> bool {
    &&& r.type_tag@ == "plains"@
    &&& r.height_min == 500_000 && r.height_max == FIXED_ONE
    &&& r.moisture_min == 0 && r.moisture_max == 500_000
    &&& r.temperature_min == 300_000 && r.temperature_max == 700_000
    &&& r.ground_tile_type@ == "grass"@
    &&& r.spawnable_objects@.len() == 0
}

pub open spec fn is_forest_rule(r: BiomeRule) -> bool {
    &&& r.type_tag@ == "forest"@
    &&& r.height_min == 500_000 && r.height_max == FIXED_ONE
    &&& r.moisture_min == 500_000 && r.moisture_max == FIXED_ONE
    &&& r.temperature_min == 300_000 && r.temperature_max == 700_000
    &&& r.ground_tile_type@ == "grass"@
    &&& r.spawnable_objects@.len() == 1
    &&& r.spawnable_objects@[0].object_type@ == "tree"@
    &&& r.spawnable_objects@[0].probability == 100_000
}

#[derive(Clone, Copy, Debug)]
pub struct RiverBiome;

impl RiverBiome {
    pub fn get_type_tag(&self) -> (r: &'static str)
        ensures
            r@ == "river"@,
    {
        "river"
    }

    pub fn is_suitable(&self, height: i64, moisture: i64, temperature: i64) -> (r: bool)
        ensures
            r == (0 <= height <= 480_000 && 0 <= moisture <= FIXED_ONE && 0 <= temperature
                <= FIXED_ONE),
    {
        0 <= height && height <= 480_000 && 0 <= moisture && moisture <= FIXED_ONE && 0
            <= temperature && temperature <= FIXED_ONE
    }

    pub fn get_ground_tile_type(&self) -> (r: &'static str)
        ensures
            r@ == "water"@,
    {
        "water"
    }

    pub fn get_spawnable_objects(&self) -> (r: Vec<SpawnRule>)
        ensures
            r@.len() == 0,
    {
        Vec::new()
    }

    /// This biome as classifier data.
    pub fn rule(&self) -> (r: BiomeRule)
        ensures
            is_river_rule(r),
    {
        BiomeRule {
            type_tag: "river".to_owned(),
            height_min: 0,
            height_max: 480_000,
            moisture_min: 0,
            moisture_max: FIXED_ONE,
            temperature_min: 0,
            temperature_max: FIXED_ONE,
            ground_tile_type: "water".to_owned(),
            spawnable_objects: Vec::new(),
        }
    }
}

#[derive(Clone, Copy, Debug)]
pub struct BeachBiome;

impl BeachBiome {
    pub fn get_type_tag(&self) -> (r: &'static str)
        ensures
            r@ == "beach"@,
    {
        "beach"
    }

    pub fn is_suitable(&self, height: i64, moisture: i64, temperature: i64) -> (r: bool)
        ensures
            r == (480_000 <= height <= 500_000 && 0 <= moisture <= FIXED_ONE && 0 <= temperature
                <= FIXED_ONE),
    {
        480_000 <= height && height <= 500_000 && 0 <= moisture && moisture <= FIXED_ONE && 0
            <= temperature && temperature <= FIXED_ONE
    }

    pub fn get_ground_tile_type(&self) -> (r: &'static str)
        ensures
            r@ == "sand"@,
    {
        "sand"
    }

    pub fn get_spawnable_objects(&self) -> (r: Vec<SpawnRule>)
        ensures
            r@.len() == 0,
    {
        Vec::new()
    }

    /// This biome as classifier data.
    pub fn rule(&self) -> (r: BiomeRule)
        ensures
            is_beach_rule(r),
    {
        BiomeRule {
            type_tag: "beach".to_owned(),
            height_min: 480_000,
            height_max: 500_000,
            moisture_min: 0,
            moisture_max: FIXED_ONE,
            temperature_min: 0,
            temperature_max: FIXED_ONE,
            ground_tile_type: "sand".to_owned(),
            spawnable_objects: Vec::new(),
        }
    }
}

#[derive(Clone, Copy, Debug)]
pub struct DesertBiome;

impl DesertBiome {
    pub fn get_type_tag(&self) -> (r: &'static str)
        ensures
            r@ == "desert"@,
    {
        "desert"
    }

    pub fn is_suitable(&self, height: i64, moisture: i64, temperature: i64) -> (r: bool)
        ensures
            r == (500_000 <= height <= FIXED_ONE && 0 <= moisture <= 300_000 && 700_000
                <= temperature <= FIXED_ONE),
    {
        500_000 <= height && height <= FIXED_ONE && 0 <= moisture && moisture <= 300_000 && 700_000
            <= temperature && temperature <= FIXED_ONE
    }

    pub fn get_ground_tile_type(&self) -> (r: &'static str)
        ensures
            r@ == "sand"@,
    {
        "sand"
    }

    pub fn get_spawnable_objects(&self) -> (r: Vec<SpawnRule>)
        ensures
            r@.len() == 1,
            r@[0].object_type@ == "cactus"@,
            r@[0].probability == 60_000,
    {
        let mut v: Vec<SpawnRule> = Vec::new();
        v.push(SpawnRule { object_type: "cactus".to_owned(), probability: 60_000 });
        v
    }

    /// This biome as classifier data.
    pub fn rule(&self) -> (r: BiomeRule)
        ensures
            is_desert_rule(r),
    {
        BiomeRule {
            type_tag: "desert".to_owned(),
            height_min: 500_000,
            height_max: FIXED_ONE,
            moisture_min: 0,
            moisture_max: 300_000,
            temperature_min: 700_000,
            temperature_max: FIXED_ONE,
            ground_tile_type: "sand".to_owned(),
            spawnable_objects: self.get_spawnable_objects(),
        }
    }
}

#[derive(Clone, Copy, Debug)]
pub struct SnowPlainsBiome;

impl SnowPlainsBiome {
    pub fn get_type_tag(&self) -> (r: &'static str)
        ensures
            r@ == "snow_plains"@,
    {
        "snow_plains"
    }

    pub fn is_suitable(&self, height: i64, moisture: i64, temperature: i64) -> (r: bool)
        ensures
            r == (500_000 <= height <= FIXED_ONE && 0 <= moisture <= 500_000 && 0 <= temperature
                <= 300_000),
    {
        500_000 <= height && height <= FIXED_ONE && 0 <= moisture && moisture <= 500_000 && 0
            <= temperature && temperature <= 300_000
    }

    pub fn get_ground_tile_type(&self) -> (r: &'static str)
        ensures
            r@ == "snowgrass"@,
    {
        "snowgrass"
    }

    pub fn get_spawnable_objects(&self) -> (r: Vec<SpawnRule>)
        ensures
            r@.len() == 0,
    {
        Vec::new()
    }

    /// This biome as classifier data.
    pub fn rule(&self) -> (r: BiomeRule)
        ensures
            is_snow_plains_rule(r),
    {
        BiomeRule {
            type_tag: "snow_plains".to_owned(),
            height_min: 500_000,
            height_max: FIXED_ONE,
            moisture_min: 0,
            moisture_max: 500_000,
            temperature_min: 0,
            temperature_max: 300_000,
            ground_tile_type: "snowgrass".to_owned(),
            spawnable_objects: Vec::new(),
        }
    }
}

#[derive(Clone, Copy, Debug)]
pub struct SnowForestBiome;

impl SnowForestBiome {
    pub fn get_type_tag(&self) -> (r: &'static str)
        ensures
            r@ == "snow_forest"@,
    {
        "snow_forest"
    }

    pub fn is_suitable(&self, height: i64, moisture: i64, temperature: i64) -> (r: bool)
        ensures
            r == (500_000 <= height <= FIXED_ONE && 500_000 <= moisture <= FIXED_ONE && 0
                <= temperature <= 300_000),
    {
        500_000 <= height && height <= FIXED_ONE && 500_000 <= moisture && moisture <= FIXED_ONE
            && 0 <= temperature && temperature <= 300_000
    }

    pub fn get_ground_tile_type(&self) -> (r: &'static str)
        ensures
            r@ == "snowgrass"@,
    {
        "snowgrass"
    }

    pub fn get_spawnable_objects(&self) -> (r: Vec<SpawnRule>)
        ensures
            r@.len() == 1,
            r@[0].object_type@ == "snow_tree"@,
            r@[0].probability == 100_000,
    {
        let mut v: Vec<SpawnRule> = Vec::new();
        v.push(SpawnRule { object_type: "snow_tree".to_owned(), probability: 100_000 });
        v
    }

    /// This biome as classifier data.
    pub fn rule(&self) -> (r: BiomeRule)
        ensures
            is_snow_forest_rule(r),
    {
        BiomeRule {
            type_tag: "snow_forest".to_owned(),
            height_min: 500_000,
            height_max: FIXED_ONE,
            moisture_min: 500_000,
            moisture_max: FIXED_ONE,
            temperature_min: 0,
            temperature_max: 300_000,
            ground_tile_type: "snowgrass".to_owned(),
            spawnable_objects: self.get_spawnable_objects(),
        }
    }
}

#[derive(Clone, Copy, Debug)]
pub struct PlainsBiome;

impl PlainsBiome {
    pub fn get_type_tag(&self) -> (r: &'static str)
        ensures
            r@ == "plains"@,
    {
        "plains"
    }

    pub fn is_suitable(&self, height: i64, moisture: i64, temperature: i64) -> (r: bool)
        ensures
            r == (500_000 <= height <= FIXED_ONE && 0 <= moisture <= 500_000 && 300_000
                <= temperature <= 700_000),
    {
        500_000 <= height && height <= FIXED_ONE && 0 <= moisture && moisture <= 500_000 && 300_000
            <= temperature && temperature <= 700_000
    }

    pub fn get_ground_tile_type(&self) -> (r: &'static str)
        ensures
            r@ == "grass"@,
    {
        "grass"
    }

    pub fn get_spawnable_objects(&self) -> (r: Vec<SpawnRule>)
        ensures
            r@.len() == 0,
    {
        Vec::new()
    }

    /// This biome as classifier data.
    pub fn rule(&self) -> (r: BiomeRule)
        ensures
            is_plains_rule(r),
    {
        BiomeRule {
            type_tag: "plains".to_owned(),
            height_min: 500_000,
            height_max: FIXED_ONE,
            moisture_min: 0,
            moisture_max: 500_000,
            temperature_min: 300_000,
            temperature_max: 700_000,
            ground_tile_type: "grass".to_owned(),
            spawnable_objects: Vec::new(),
        }
    }
}

#[derive(Clone, Copy, Debug)]
pub struct ForestBiome;

impl ForestBiome {
    pub fn get_type_tag(&self) -> (r: &'static str)
        ensures
            r@ == "forest"@,
    {
        "forest"
    }

    pub fn is_suitable(&self, height: i64, moisture: i64, temperature: i64) -> (r: bool)
        ensures
            r == (500_000 <= height <= FIXED_ONE && 500_000 <= moisture <= FIXED_ONE && 300_000
                <= temperature <= 700_000),
    {
        500_000 <= height && height <= FIXED_ONE && 500_000 <= moisture && moisture <= FIXED_ONE
            && 300_000 <= temperature && temperature <= 700_000
    }

    pub fn get_ground_tile_type(&self) -> (r: &'static str)
        ensures
            r@ == "grass"@,
    {
        "grass"
    }

    pub fn get_spawnable_objects(&self) -> (r: Vec<SpawnRule>)
        ensures
            r@.len() == 1,
            r@[0].object_type@ == "tree"@,
            r@[0].probability == 100_000,
    {
        let mut v: Vec<SpawnRule> = Vec::new();
        v.push(SpawnRule { object_type: "tree".to_owned(), probability: 100_000 });
        v
    }

    /// This biome as classifier data.
    pub fn rule(&self) -> (r: BiomeRule)
        ensures
            is_forest_rule(r),
    {
        BiomeRule {
            type_tag: "forest".to_owned(),
            height_min: 500_000,
            height_max: FIXED_ONE,
            moisture_min: 500_000,
            moisture_max: FIXED_ONE,
            temperature_min: 300_000,
            temperature_max: 700_000,
            ground_tile_type: "grass".to_owned(),
            spawnable_objects: self.get_spawnable_objects(),
        }
    }
}

/// Register the classic biome catalog, in its load-bearing order: river,
/// beach, desert, snow plains, snow forest, plains, forest.
pub fn register_biomes(registry: &mut BiomeRegistry)
    ensures
        final(registry).rules().len() == old(registry).rules().len() + 7,
        ({
            let n = old(registry).rules().len() as int;
            let rules = final(registry).rules();
            &&& rules.subrange(0, n) == old(registry).rules()
            &&& is_river_rule(rules[n])
            &&& is_beach_rule(rules[n + 1])
            &&& is_desert_rule(rules[n + 2])
            &&& is_snow_plains_rule(rules[n + 3])
            &&& is_snow_forest_rule(rules[n + 4])
            &&& is_plains_rule(rules[n + 5])
            &&& is_forest_rule(rules[n + 6])
        }),
{
    registry.register(RiverBiome.rule());
    registry.register(BeachBiome.rule());
    registry.register(DesertBiome.rule());
    registry.register(SnowPlainsBiome.rule());
    registry.register(SnowForestBiome.rule());
    registry.register(PlainsBiome.rule());
    registry.register(ForestBiome.rule());
    proof {
        assert(registry.rules().subrange(0, old(registry).rules().len() as int) =~= old(
            registry,
        ).rules());
    }
}

} // verus!
