//! The world generator: per-coordinate environment sampling and the chunk
//! builder that turns one chunk coordinate into tiles and spawned objects.
//!
//! Everything a chunk holds is a pure function of the world seed and the
//! chunk coordinate: terrain comes from the fractal noise field, the spawn
//! trials draw from a generator seeded from the seed and the coordinate, and
//! the whole build is mirrored by the `spec_chunk_tiles` / `spec_chunk_objects`
//! model that the builder is proved to implement.

use vstd::prelude::*;
#[allow(unused_imports)]
use vstd::arithmetic::div_mod::{lemma_div_is_ordered, lemma_div_multiples_vanish};
use crate::biome::{BiomeRegistry, BiomeRule, spec_find};
use crate::fixed::EnvironmentSample;
use crate::noise_field::{fractal_noise, spec_fractal_noise, lemma_fractal_noise_bound, mix64,
    spec_mix64, RAW_SPAN};
use crate::objects::{Object, ObjectRegistry, spec_object_index, register_objects};
use crate::rng::{SpawnRng, spec_draw, spec_step};
use crate::tiles::{Tile, TileRegistry, spec_tile_index, register_tiles};
use crate::biomes::register_biomes;
use crate::{CHUNK_SIZE, TILE_SIZE};

verus! {

/// Bound on a world (tile) coordinate: every coordinate reachable from a
/// 32-bit chunk coordinate is within it.
pub const WORLD_LIMIT: i64 = 34_359_738_368;

/// Spatial frequency of the noise domain per world coordinate step, in
/// fixed point (0.003).
pub const NOISE_SCALE: i64 = 3000;

/// Salt mixed into the spawn-trial stream so that it is decorrelated from
/// the terrain lattice values.
pub const SPAWN_SALT: u64 = 0x5350_4157_4E53_4545;

/// Noise-domain x offset of the moisture channel for this seed.
pub open spec fn spec_moisture_offset_x(seed: u32) -> i64 {
    ((((seed as int) * 12345) % 100_000) * 1_000_000) as i64
}

/// Noise-domain y offset of the moisture channel for this seed.
pub open spec fn spec_moisture_offset_y(seed: u32) -> i64 {
    ((((seed as int) * 54321) % 100_000) * 1_000_000) as i64
}

/// Noise-domain x offset of the temperature channel for this seed.
pub open spec fn spec_temp_offset_x(seed: u32) -> i64 {
    ((((seed as int) * 67890) % 100_000) * 1_000_000) as i64
}

/// Noise-domain y offset of the temperature channel for this seed.
pub open spec fn spec_temp_offset_y(seed: u32) -> i64 {
    ((((seed as int) * 9876) % 100_000) * 1_000_000) as i64
}

/// The environment sample at a world coordinate: each channel is the fractal
/// noise value — height at the scaled coordinate itself, moisture and
/// temperature at seed-derived offsets of it — normalized from [0, RAW_SPAN]
/// to [0, FIXED_ONE] by halving.
#[verifier::opaque]
pub open spec fn spec_get_values(seed: u32, world_x: int, world_y: int) -> EnvironmentSample {
    let nx = world_x * NOISE_SCALE;
    let ny = world_y * NOISE_SCALE;
    EnvironmentSample {
        height: (spec_fractal_noise(seed, nx, ny) / 2) as i64,
        moisture: (spec_fractal_noise(
            seed,
            nx + spec_moisture_offset_x(seed),
            ny + spec_moisture_offset_y(seed),
        ) / 2) as i64,
        temperature: (spec_fractal_noise(
            seed,
            nx + spec_temp_offset_x(seed),
            ny + spec_temp_offset_y(seed),
        ) / 2) as i64,
    }
}

/// Every channel of every in-range sample is normalized to [0, FIXED_ONE].
pub proof fn lemma_get_values_wf(seed: u32, world_x: int, world_y: int)
    requires
        -WORLD_LIMIT <= world_x <= WORLD_LIMIT,
        -WORLD_LIMIT <= world_y <= WORLD_LIMIT,
    ensures
        spec_get_values(seed, world_x, world_y).wf(),
{
    reveal(spec_get_values);
    let nx = world_x * NOISE_SCALE;
    let ny = world_y * NOISE_SCALE;
    lemma_fractal_noise_bound(seed, nx, ny);
    lemma_fractal_noise_bound(
        seed,
        nx + spec_moisture_offset_x(seed),
        ny + spec_moisture_offset_y(seed),
    );
    lemma_fractal_noise_bound(seed, nx + spec_temp_offset_x(seed), ny + spec_temp_offset_y(seed));
    lemma_div_is_ordered(0, spec_fractal_noise(seed, nx, ny), 2);
    lemma_div_is_ordered(spec_fractal_noise(seed, nx, ny), RAW_SPAN as int, 2);
    lemma_div_is_ordered(
        0,
        spec_fractal_noise(seed, nx + spec_moisture_offset_x(seed), ny + spec_moisture_offset_y(seed)),
        2,
    );
    lemma_div_is_ordered(
        spec_fractal_noise(seed, nx + spec_moisture_offset_x(seed), ny + spec_moisture_offset_y(seed)),
        RAW_SPAN as int,
        2,
    );
    lemma_div_is_ordered(
        0,
        spec_fractal_noise(seed, nx + spec_temp_offset_x(seed), ny + spec_temp_offset_y(seed)),
        2,
    );
    lemma_div_is_ordered(
        spec_fractal_noise(seed, nx + spec_temp_offset_x(seed), ny + spec_temp_offset_y(seed)),
        RAW_SPAN as int,
        2,
    );
}

/// The deterministic environment sampler for one world seed.
pub struct WorldGenerator {
    seed: u32,
    moisture_offset: (i64, i64),
    temp_offset: (i64, i64),
}

impl WorldGenerator {
    /// The world seed this generator was built from.
    pub closed spec fn seed(&self) -> u32 {
        self.seed
    }

    /// The stored channel offsets are the ones this seed derives.
    pub closed spec fn wf(&self) -> bool {
        &&& self.moisture_offset.0 == spec_moisture_offset_x(self.seed)
        &&& self.moisture_offset.1 == spec_moisture_offset_y(self.seed)
        &&& self.temp_offset.0 == spec_temp_offset_x(self.seed)
        &&& self.temp_offset.1 == spec_temp_offset_y(self.seed)
    }

    pub fn new(seed: u32) -> (g: WorldGenerator)
        ensures
            g.seed() == seed,
            g.wf(),
    {
        let s = seed as u64;
        let moisture_offset = (
            (((s * 12345) % 100_000) * 1_000_000) as i64,
            (((s * 54321) % 100_000) * 1_000_000) as i64,
        );
        let temp_offset = (
            (((s * 67890) % 100_000) * 1_000_000) as i64,
            (((s * 9876) % 100_000) * 1_000_000) as i64,
        );
        WorldGenerator { seed, moisture_offset, temp_offset }
    }

    /// One fractal noise sample with this generator's seed.
    fn generate_noise(&self, nx: i64, ny: i64) -> (r: u64)
        requires
            -crate::noise_field::COORD_LIMIT <= nx <= crate::noise_field::COORD_LIMIT,
            -crate::noise_field::COORD_LIMIT <= ny <= crate::noise_field::COORD_LIMIT,
        ensures
            r == spec_fractal_noise(self.seed(), nx as int, ny as int),
            r <= RAW_SPAN,
    {
        fractal_noise(self.seed, nx, ny)
    }

    /// The three environment channels at a world coordinate; a pure function
    /// of the seed and the coordinate, with every channel in [0, FIXED_ONE].
    pub fn get_values(&self, world_x: i64, world_y: i64) -> (s: EnvironmentSample)
        requires
            self.wf(),
            -WORLD_LIMIT <= world_x <= WORLD_LIMIT,
            -WORLD_LIMIT <= world_y <= WORLD_LIMIT,
        ensures
            s == spec_get_values(self.seed(), world_x as int, world_y as int),
            s.wf(),
    {
        proof {
            reveal(spec_get_values);
            lemma_get_values_wf(self.seed, world_x as int, world_y as int);
        }
        let nx = world_x * NOISE_SCALE;
        let ny = world_y * NOISE_SCALE;
        let height = (self.generate_noise(nx, ny) / 2) as i64;
        let temperature = (self.generate_noise(nx + self.temp_offset.0, ny + self.temp_offset.1)
            / 2) as i64;
        let moisture = (self.generate_noise(
            nx + self.moisture_offset.0,
            ny + self.moisture_offset.1,
        ) / 2) as i64;
        EnvironmentSample { height, moisture, temperature }
    }
}

/// The seed metadata persisted per world and passed into every chunk build.
#[derive(Clone, Copy, Debug, PartialEq, Eq, Structural)]
pub struct WorldGenInfo {
    pub seed: u32,
}

/// One generated chunk: its grid coordinate, its ground tiles in cell order,
/// and the objects spawned on them.
pub struct Chunk {
    pub pos: (i32, i32),
    pub tiles: Vec<Tile>,
    pub objects: Vec<Object>,
}

impl Chunk {
    pub fn new(pos: (i32, i32)) -> (c: Chunk)
        ensures
            c.pos == pos,
            c.tiles@ == Seq::<Tile>::empty(),
            c.objects@ == Seq::<Object>::empty(),
    {
        Chunk { pos, tiles: Vec::new(), objects: Vec::new() }
    }
}

/// All inputs of one chunk build, as the spec model sees them.
pub struct GenConfig {
    pub seed: u32,
    pub chunk_pos: (i32, i32),
    pub rules: Seq<BiomeRule>,
    pub tile_protos: Seq<Tile>,
    pub object_protos: Seq<Object>,
}

/// The build inputs drawn from the actual registries.
pub open spec fn spec_config(
    seed: u32,
    chunk_pos: (i32, i32),
    tile_registry: &TileRegistry,
    object_registry: &ObjectRegistry,
    biome_registry: &BiomeRegistry,
) -> GenConfig {
    GenConfig {
        seed,
        chunk_pos,
        rules: biome_registry.rules(),
        tile_protos: tile_registry.tiles(),
        object_protos: object_registry.objects(),
    }
}

/// The spawn-trial stream seed for one chunk: derived from the world seed and
/// the chunk coordinate, salted away from the terrain lattice stream.
pub open spec fn spec_chunk_rng_seed(seed: u32, pos: (i32, i32)) -> u64 {
    spec_mix64(spec_mix64(spec_mix64((seed as u64) ^ SPAWN_SALT) ^ (pos.0 as u64)) ^ (pos.1 as u64))
}

fn chunk_rng_seed(seed: u32, pos: (i32, i32)) -> (r: u64)
    ensures
        r == spec_chunk_rng_seed(seed, pos),
{
    mix64(mix64(mix64((seed as u64) ^ SPAWN_SALT) ^ (pos.0 as u64)) ^ (pos.1 as u64))
}

/// World x coordinate of cell `cell` (row-major in [0, CHUNK_SIZE²)).
pub open spec fn spec_cell_world_x(pos: (i32, i32), cell: int) -> int {
    (pos.0 as int) * (CHUNK_SIZE as int) + cell % (CHUNK_SIZE as int)
}

/// World y coordinate of cell `cell`.
pub open spec fn spec_cell_world_y(pos: (i32, i32), cell: int) -> int {
    (pos.1 as int) * (CHUNK_SIZE as int) + cell / (CHUNK_SIZE as int)
}

/// Pixel x position of cell `cell`.
pub open spec fn spec_cell_px(pos: (i32, i32), cell: int) -> i64 {
    (spec_cell_world_x(pos, cell) * (TILE_SIZE as int)) as i64
}

/// Pixel y position of cell `cell`.
pub open spec fn spec_cell_py(pos: (i32, i32), cell: int) -> i64 {
    (spec_cell_world_y(pos, cell) * (TILE_SIZE as int)) as i64
}

/// The environment sample of one cell.
pub open spec fn spec_cell_sample(cfg: GenConfig, cell: int) -> EnvironmentSample {
    spec_get_values(
        cfg.seed,
        spec_cell_world_x(cfg.chunk_pos, cell),
        spec_cell_world_y(cfg.chunk_pos, cell),
    )
}

/// The classifier's choice for one cell.
pub open spec fn spec_cell_biome(cfg: GenConfig, cell: int) -> Option<BiomeRule> {
    spec_find(cfg.rules, spec_cell_sample(cfg, cell))
}

/// The ground tiles one cell contributes: one fresh copy of the matched
/// biome's ground tile at the cell's pixel position, or nothing when no biome
/// matches or the tile registry lacks the identifier.
pub open spec fn spec_cell_tile_adds(cfg: GenConfig, cell: int) -> Seq<Tile> {
    match spec_cell_biome(cfg, cell) {
        Option::None => Seq::empty(),
        Option::Some(b) => {
            let m = spec_tile_index(cfg.tile_protos, b.ground_tile_type@, 0);
            if m < cfg.tile_protos.len() {
                seq![
                    (Tile {
                        type_tag: cfg.tile_protos[m].type_tag,
                        x: spec_cell_px(cfg.chunk_pos, cell),
                        y: spec_cell_py(cfg.chunk_pos, cell),
                    }),
                ]
            } else {
                Seq::empty()
            }
        },
    }
}

/// The objects that the spawn rules `srs[j..]` contribute at one cell, when
/// the trial stream stands at `rng`: one trial per rule in order, each
/// consuming one draw, spawning when the draw undercuts the rule's
/// probability and the object registry knows the identifier.
pub open spec fn spec_spawn_adds(
    cfg: GenConfig,
    srs: Seq<crate::biome::SpawnRule>,
    j: int,
    rng: u64,
    px: i64,
    py: i64,
) -> Seq<Object>
    decreases srs.len() - j,
{
    if j < 0 || j >= srs.len() {
        Seq::empty()
    } else {
        let rest = spec_spawn_adds(cfg, srs, j + 1, spec_step(rng), px, py);
        if spec_draw(rng) < srs[j].probability {
            let m = spec_object_index(cfg.object_protos, srs[j].object_type@, 0);
            if m < cfg.object_protos.len() {
                seq![
                    (Object {
                        type_tag: cfg.object_protos[m].type_tag,
                        x: px,
                        y: py,
                        width: cfg.object_protos[m].width,
                        height: cfg.object_protos[m].height,
                    }),
                ] + rest
            } else {
                rest
            }
        } else {
            rest
        }
    }
}

/// How many draws one cell consumes: one per spawn rule of its biome.
pub open spec fn spec_cell_draws(cfg: GenConfig, cell: int) -> int {
    match spec_cell_biome(cfg, cell) {
        Option::None => 0,
        Option::Some(b) => b.spawnable_objects@.len() as int,
    }
}

/// The trial stream state after `k` draws from `rng`.
pub open spec fn spec_rng_steps(rng: u64, k: int) -> u64
    decreases k,
{
    if k <= 0 {
        rng
    } else {
        spec_step(spec_rng_steps(rng, k - 1))
    }
}

/// The trial stream state when cell `cell` is reached.
pub open spec fn spec_rng_at(cfg: GenConfig, cell: int) -> u64
    decreases cell,
{
    if cell <= 0 {
        spec_chunk_rng_seed(cfg.seed, cfg.chunk_pos)
    } else {
        spec_rng_steps(spec_rng_at(cfg, cell - 1), spec_cell_draws(cfg, cell - 1))
    }
}

/// The objects one cell contributes.
pub open spec fn spec_cell_obj_adds(cfg: GenConfig, cell: int) -> Seq<Object> {
    match spec_cell_biome(cfg, cell) {
        Option::None => Seq::empty(),
        Option::Some(b) => spec_spawn_adds(
            cfg,
            b.spawnable_objects@,
            0,
            spec_rng_at(cfg, cell),
            spec_cell_px(cfg.chunk_pos, cell),
            spec_cell_py(cfg.chunk_pos, cell),
        ),
    }
}

/// All tiles contributed by cells before `n`, in cell order.
pub open spec fn spec_tiles_upto(cfg: GenConfig, n: int) -> Seq<Tile>
    decreases n,
{
    if n <= 0 {
        Seq::empty()
    } else {
        spec_tiles_upto(cfg, n - 1) + spec_cell_tile_adds(cfg, n - 1)
    }
}

/// All objects contributed by cells before `n`, in cell order.
pub open spec fn spec_objects_upto(cfg: GenConfig, n: int) -> Seq<Object>
    decreases n,
{
    if n <= 0 {
        Seq::empty()
    } else {
        spec_objects_upto(cfg, n - 1) + spec_cell_obj_adds(cfg, n - 1)
    }
}

/// The full tile list of the chunk that `cfg` describes.
pub open spec fn spec_chunk_tiles(cfg: GenConfig) -> Seq<Tile> {
    spec_tiles_upto(cfg, (CHUNK_SIZE * CHUNK_SIZE) as int)
}

/// The full object list of the chunk that `cfg` describes.
pub open spec fn spec_chunk_objects(cfg: GenConfig) -> Seq<Object> {
    spec_objects_upto(cfg, (CHUNK_SIZE * CHUNK_SIZE) as int)
}

/// Build the chunk at `chunk_pos`: sample the noise field per cell, classify,
/// place the matched biome's ground tile, and run its spawn trials. Unknown
/// identifiers and unmatched cells are skipped without failing. The result is
/// exactly the `spec_chunk_tiles` / `spec_chunk_objects` model of the inputs —
/// a pure function of seed, coordinate and registry contents.
pub fn generate_chunk(
    chunk_pos: (i32, i32),
    seed: u32,
    tile_registry: &TileRegistry,
    object_registry: &ObjectRegistry,
    biome_registry: &BiomeRegistry,
) -> (c: Chunk)
    ensures
        c.pos == chunk_pos,
        c.tiles@ == spec_chunk_tiles(
            spec_config(seed, chunk_pos, tile_registry, object_registry, biome_registry),
        ),
        c.objects@ == spec_chunk_objects(
            spec_config(seed, chunk_pos, tile_registry, object_registry, biome_registry),
        ),
{
    let ghost cfg = spec_config(seed, chunk_pos, tile_registry, object_registry, biome_registry);
    let generator = WorldGenerator::new(seed);
    let mut tiles: Vec<Tile> = Vec::new();
    let mut objects: Vec<Object> = Vec::new();
    let mut rng = SpawnRng::new(chunk_rng_seed(seed, chunk_pos));
    let mut cell: usize = 0;
    while cell < 256
        invariant
            0 <= cell <= 256,
            cfg == spec_config(seed, chunk_pos, tile_registry, object_registry, biome_registry),
            generator.wf(),
            generator.seed() == seed,
            tiles@ == spec_tiles_upto(cfg, cell as int),
            objects@ == spec_objects_upto(cfg, cell as int),
            rng.state() == spec_rng_at(cfg, cell as int),
        decreases 256 - cell,
    {
        let x = (cell % 16) as i64;
        let y = (cell / 16) as i64;
        let world_x = (chunk_pos.0 as i64) * CHUNK_SIZE + x;
        let world_y = (chunk_pos.1 as i64) * CHUNK_SIZE + y;
        let px = world_x * TILE_SIZE;
        let py = world_y * TILE_SIZE;
        proof {
            assert(world_x == spec_cell_world_x(chunk_pos, cell as int));
            assert(world_y == spec_cell_world_y(chunk_pos, cell as int));
            assert(px == spec_cell_px(chunk_pos, cell as int));
            assert(py == spec_cell_py(chunk_pos, cell as int));
        }
        let s = generator.get_values(world_x, world_y);
        proof {
            assert(s == spec_cell_sample(cfg, cell as int));
            assert(crate::fixed::env(s.height, s.moisture, s.temperature) == s);
        }
        match biome_registry.find_biome(s.height, s.moisture, s.temperature) {
            Option::None => {
                proof {
                    assert(spec_cell_biome(cfg, cell as int) is None);
                    assert(spec_tiles_upto(cfg, cell as int + 1) =~= tiles@);
                    assert(spec_objects_upto(cfg, cell as int + 1) =~= objects@);
                    assert(spec_cell_draws(cfg, cell as int) == 0);
                    assert(spec_rng_at(cfg, cell as int + 1) == rng.state());
                }
            },
            Option::Some(rule) => {
                proof {
                    assert(spec_cell_biome(cfg, cell as int) == Some(*rule));
                }
                match tile_registry.create_tile_by_id(rule.ground_tile_type.as_str()) {
                    Option::Some(mut tile) => {
                        tile.set_pos(px, py);
                        tiles.push(tile);
                        proof {
                            assert(spec_tiles_upto(cfg, cell as int + 1) =~= tiles@);
                        }
                    },
                    Option::None => {
                        proof {
                            assert(spec_cell_tile_adds(cfg, cell as int) =~= Seq::<Tile>::empty());
                            assert(spec_tiles_upto(cfg, cell as int + 1) =~= tiles@);
                        }
                    },
                }
                let ghost rng0 = rng.state();
                let srs = &rule.spawnable_objects;
                let n_rules = srs.len();
                let mut j: usize = 0;
                while j < n_rules
                    invariant
                        0 <= j <= n_rules,
                        n_rules == rule.spawnable_objects@.len(),
                        cfg == spec_config(
                            seed,
                            chunk_pos,
                            tile_registry,
                            object_registry,
                            biome_registry,
                        ),
                        srs@ == rule.spawnable_objects@,
                        0 <= cell < 256,
                        spec_cell_biome(cfg, cell as int) == Some(*rule),
                        px == spec_cell_px(chunk_pos, cell as int),
                        py == spec_cell_py(chunk_pos, cell as int),
                        rng0 == spec_rng_at(cfg, cell as int),
                        rng.state() == spec_rng_steps(rng0, j as int),
                        objects@ + spec_spawn_adds(cfg, srs@, j as int, rng.state(), px, py)
                            == spec_objects_upto(cfg, cell as int) + spec_spawn_adds(
                            cfg,
                            srs@,
                            0,
                            rng0,
                            px,
                            py,
                        ),
                    decreases n_rules - j,
                {
                    let ghost pre_state = rng.state();
                    let ghost pre_objects = objects@;
                    let draw = rng.draw_unit();
                    if draw < srs[j].probability {
                        match object_registry.create_object_by_id(srs[j].object_type.as_str()) {
                            Option::Some(mut obj) => {
                                obj.set_pos(px, py);
                                objects.push(obj);
                            },
                            Option::None => {},
                        }
                    }
                    proof {
                        let head = if spec_draw(pre_state) < srs@[j as int].probability {
                            let m = spec_object_index(
                                cfg.object_protos,
                                srs@[j as int].object_type@,
                                0,
                            );
                            if m < cfg.object_protos.len() {
                                seq![
                                    (Object {
                                        type_tag: cfg.object_protos[m].type_tag,
                                        x: px,
                                        y: py,
                                        width: cfg.object_protos[m].width,
                                        height: cfg.object_protos[m].height,
                                    }),
                                ]
                            } else {
                                Seq::<Object>::empty()
                            }
                        } else {
                            Seq::<Object>::empty()
                        };
                        assert(spec_spawn_adds(cfg, srs@, j as int, pre_state, px, py) == head
                            + spec_spawn_adds(cfg, srs@, j as int + 1, spec_step(pre_state), px, py));
                        assert(objects@ =~= pre_objects + head);
                        assert(objects@ + spec_spawn_adds(cfg, srs@, j as int + 1, rng.state(), px, py)
                            =~= pre_objects + spec_spawn_adds(cfg, srs@, j as int, pre_state, px, py));
                    }
                    j += 1;
                }
                proof {
                    assert(spec_spawn_adds(cfg, srs@, n_rules as int, rng.state(), px, py)
                        =~= Seq::<Object>::empty());
                    assert(objects@ =~= spec_objects_upto(cfg, cell as int) + spec_cell_obj_adds(
                        cfg,
                        cell as int,
                    ));
                    assert(spec_objects_upto(cfg, cell as int + 1) =~= objects@);
                    assert(spec_cell_draws(cfg, cell as int) == n_rules as int);
                    assert(spec_rng_at(cfg, cell as int + 1) == rng.state());
                }
            },
        }
        cell += 1;
    }
    let mut chunk = Chunk::new(chunk_pos);
    chunk.tiles = tiles;
    chunk.objects = objects;
    chunk
}

/// Build the three registries from the fixed catalog.
pub fn init_registries() -> (r: (TileRegistry, ObjectRegistry, BiomeRegistry))
    ensures
        r.0.tiles().len() == 4,
        r.0.tiles()[0].type_tag@ == "grass"@,
        r.0.tiles()[1].type_tag@ == "sand"@,
        r.0.tiles()[2].type_tag@ == "snowgrass"@,
        r.0.tiles()[3].type_tag@ == "water"@,
        r.1.objects().len() == 4,
        r.1.objects()[0].type_tag@ == "tree"@,
        r.1.objects()[1].type_tag@ == "snow_tree"@,
        r.1.objects()[2].type_tag@ == "cactus"@,
        r.1.objects()[3].type_tag@ == "player"@,
        r.2.rules().len() == 7,
        crate::biomes::is_river_rule(r.2.rules()[0]),
        crate::biomes::is_beach_rule(r.2.rules()[1]),
        crate::biomes::is_desert_rule(r.2.rules()[2]),
        crate::biomes::is_snow_plains_rule(r.2.rules()[3]),
        crate::biomes::is_snow_forest_rule(r.2.rules()[4]),
        crate::biomes::is_plains_rule(r.2.rules()[5]),
        crate::biomes::is_forest_rule(r.2.rules()[6]),
{
    let mut tile_registry = TileRegistry::new();
    let mut object_registry = ObjectRegistry::new();
    let mut biome_registry = BiomeRegistry::new();
    register_tiles(&mut tile_registry);
    register_objects(&mut object_registry);
    register_biomes(&mut biome_registry);
    (tile_registry, object_registry, biome_registry)
}

} // verus!
