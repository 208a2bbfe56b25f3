//! Laws of chunk generation, stated and proved over the spec model that
//! `generate_chunk` is proved to implement.

use vstd::prelude::*;
use crate::biome::{BiomeRule, SpawnRule, spec_find_from, lemma_find_from_characterization};
use crate::fixed::{EnvironmentSample, FIXED_ONE};
use crate::generator::{GenConfig, spec_cell_biome, spec_cell_obj_adds, spec_cell_px, spec_cell_py,
    spec_cell_sample, spec_cell_tile_adds, spec_cell_world_x, spec_cell_world_y,
    spec_chunk_objects, spec_chunk_tiles, spec_objects_upto, spec_rng_at, spec_spawn_adds,
    spec_tiles_upto, lemma_get_values_wf, WORLD_LIMIT};
use crate::objects::{spec_object_index, lemma_object_index_characterization};
use crate::rng::{spec_draw, spec_step, lemma_draw_bounds};
use crate::tiles::{Tile, spec_tile_index, lemma_tile_index_characterization};
use crate::CHUNK_SIZE;

verus! {

/// The ground tile identifier that one cell's matched biome calls for; empty
/// when no biome matches.
pub open spec fn spec_cell_ground_tile(cfg: GenConfig, cell: int) -> Seq<char> {
    match spec_cell_biome(cfg, cell) {
        Option::None => Seq::empty(),
        Option::Some(b) => b.ground_tile_type@,
    }
}

/// The rule set leaves no gap: every well-formed sample matches some rule.
pub open spec fn rules_cover(rules: Seq<BiomeRule>) -> bool {
    forall|s: EnvironmentSample| s.wf() ==> #[trigger] spec_find_from(rules, s, 0) < rules.len()
}

/// The tile registry resolves every rule's ground tile identifier.
pub open spec fn tiles_cover(tile_protos: Seq<Tile>, rules: Seq<BiomeRule>) -> bool {
    forall|i: int|
        0 <= i < rules.len() ==> #[trigger] spec_tile_index(
            tile_protos,
            rules[i].ground_tile_type@,
            0,
        ) < tile_protos.len()
}

proof fn lemma_cell_sample_wf(cfg: GenConfig, cell: int)
    requires
        0 <= cell < CHUNK_SIZE * CHUNK_SIZE,
    ensures
        spec_cell_sample(cfg, cell).wf(),
{
    assert(-WORLD_LIMIT <= spec_cell_world_x(cfg.chunk_pos, cell) <= WORLD_LIMIT);
    assert(-WORLD_LIMIT <= spec_cell_world_y(cfg.chunk_pos, cell) <= WORLD_LIMIT);
    lemma_get_values_wf(
        cfg.seed,
        spec_cell_world_x(cfg.chunk_pos, cell),
        spec_cell_world_y(cfg.chunk_pos, cell),
    );
}

proof fn lemma_cell_tile_adds_shape(cfg: GenConfig, cell: int)
    requires
        rules_cover(cfg.rules),
        tiles_cover(cfg.tile_protos, cfg.rules),
        0 <= cell < CHUNK_SIZE * CHUNK_SIZE,
    ensures
        spec_cell_tile_adds(cfg, cell).len() == 1,
        spec_cell_tile_adds(cfg, cell)[0].x == spec_cell_px(cfg.chunk_pos, cell),
        spec_cell_tile_adds(cfg, cell)[0].y == spec_cell_py(cfg.chunk_pos, cell),
        spec_cell_tile_adds(cfg, cell)[0].type_tag@ == spec_cell_ground_tile(cfg, cell),
{
    lemma_cell_sample_wf(cfg, cell);
    let s = spec_cell_sample(cfg, cell);
    let m = spec_find_from(cfg.rules, s, 0);
    lemma_find_from_characterization(cfg.rules, s, 0);
    assert(0 <= m < cfg.rules.len());
    let b = cfg.rules[m];
    assert(spec_cell_biome(cfg, cell) == Some(b));
    assert(spec_tile_index(cfg.tile_protos, cfg.rules[m].ground_tile_type@, 0)
        < cfg.tile_protos.len());
    lemma_tile_index_characterization(cfg.tile_protos, b.ground_tile_type@, 0);
}

proof fn lemma_tiles_upto_shape(cfg: GenConfig, n: int)
    requires
        rules_cover(cfg.rules),
        tiles_cover(cfg.tile_protos, cfg.rules),
        0 <= n <= CHUNK_SIZE * CHUNK_SIZE,
    ensures
        spec_tiles_upto(cfg, n).len() == n,
        forall|k: int|
            0 <= k < n ==> (#[trigger] spec_tiles_upto(cfg, n)[k]).x == spec_cell_px(
                cfg.chunk_pos,
                k,
            ) && spec_tiles_upto(cfg, n)[k].y == spec_cell_py(cfg.chunk_pos, k)
                && spec_tiles_upto(cfg, n)[k].type_tag@ == spec_cell_ground_tile(cfg, k),
    decreases n,
{
    if n > 0 {
        lemma_tiles_upto_shape(cfg, n - 1);
        lemma_cell_tile_adds_shape(cfg, n - 1);
        assert forall|k: int| 0 <= k < n implies (#[trigger] spec_tiles_upto(cfg, n)[k]).x
            == spec_cell_px(cfg.chunk_pos, k) && spec_tiles_upto(cfg, n)[k].y == spec_cell_py(
            cfg.chunk_pos,
            k,
        ) && spec_tiles_upto(cfg, n)[k].type_tag@ == spec_cell_ground_tile(cfg, k) by {
            if k < n - 1 {
                assert(spec_tiles_upto(cfg, n)[k] == spec_tiles_upto(cfg, n - 1)[k]);
            } else {
                assert(spec_tiles_upto(cfg, n)[k] == spec_cell_tile_adds(cfg, n - 1)[0]);
            }
        }
    }
}

/// Chunk shape invariant: with a rule set that covers every well-formed
/// sample and a tile registry that resolves every rule's ground tile, a chunk
/// holds exactly `CHUNK_SIZE²` tiles, and the tile of cell `k` sits at the
/// cell's pixel position — the chunk origin offset by the cell offset, all
/// scaled by the tile pixel size — and carries the ground tile identifier of
/// the cell's matched biome.
pub proof fn lemma_chunk_shape(cfg: GenConfig)
    requires
        rules_cover(cfg.rules),
        tiles_cover(cfg.tile_protos, cfg.rules),
    ensures
        spec_chunk_tiles(cfg).len() == CHUNK_SIZE * CHUNK_SIZE,
        forall|k: int|
            0 <= k < CHUNK_SIZE * CHUNK_SIZE ==> (#[trigger] spec_chunk_tiles(cfg)[k]).x
                == spec_cell_px(cfg.chunk_pos, k) && spec_chunk_tiles(cfg)[k].y == spec_cell_py(
                cfg.chunk_pos,
                k,
            ) && spec_chunk_tiles(cfg)[k].type_tag@ == spec_cell_ground_tile(cfg, k),
{
    lemma_tiles_upto_shape(cfg, (CHUNK_SIZE * CHUNK_SIZE) as int);
}

proof fn lemma_spawn_adds_certain(
    cfg: GenConfig,
    srs: Seq<SpawnRule>,
    j: int,
    q: int,
    rng: u64,
    px: i64,
    py: i64,
)
    requires
        0 <= j <= q < srs.len(),
        srs[q].probability == FIXED_ONE,
        spec_object_index(cfg.object_protos, srs[q].object_type@, 0) < cfg.object_protos.len(),
    ensures
        exists|w: int|
            0 <= w < spec_spawn_adds(cfg, srs, j, rng, px, py).len() && (#[trigger] spec_spawn_adds(
                cfg,
                srs,
                j,
                rng,
                px,
                py,
            )[w]).type_tag@ == srs[q].object_type@ && spec_spawn_adds(cfg, srs, j, rng, px, py)[w].x
                == px && spec_spawn_adds(cfg, srs, j, rng, px, py)[w].y == py,
    decreases q - j,
{
    lemma_draw_bounds(rng);
    let adds = spec_spawn_adds(cfg, srs, j, rng, px, py);
    let rest = spec_spawn_adds(cfg, srs, j + 1, spec_step(rng), px, py);
    if j == q {
        let m = spec_object_index(cfg.object_protos, srs[q].object_type@, 0);
        lemma_object_index_characterization(cfg.object_protos, srs[q].object_type@, 0);
        assert(adds[0].type_tag@ == srs[q].object_type@ && adds[0].x == px && adds[0].y == py);
    } else {
        lemma_spawn_adds_certain(cfg, srs, j + 1, q, spec_step(rng), px, py);
        let w = choose|w: int|
            0 <= w < rest.len() && (#[trigger] rest[w]).type_tag@ == srs[q].object_type@
                && rest[w].x == px && rest[w].y == py;
        if spec_draw(rng) < srs[j].probability && spec_object_index(
            cfg.object_protos,
            srs[j].object_type@,
            0,
        ) < cfg.object_protos.len() {
            assert(adds[w + 1] == rest[w]);
        } else {
            assert(adds[w] == rest[w]);
        }
    }
}

proof fn lemma_objects_upto_element(cfg: GenConfig, cell: int, n: int, w: int)
    requires
        0 <= cell < n <= CHUNK_SIZE * CHUNK_SIZE,
        0 <= w < spec_cell_obj_adds(cfg, cell).len(),
    ensures
        exists|i: int|
            0 <= i < spec_objects_upto(cfg, n).len() && #[trigger] spec_objects_upto(cfg, n)[i]
                == spec_cell_obj_adds(cfg, cell)[w],
    decreases n,
{
    if n == cell + 1 {
        let i = spec_objects_upto(cfg, cell).len() as int + w;
        assert(spec_objects_upto(cfg, n)[i] == spec_cell_obj_adds(cfg, cell)[w]);
    } else {
        lemma_objects_upto_element(cfg, cell, n - 1, w);
        let i = choose|i: int|
            0 <= i < spec_objects_upto(cfg, n - 1).len() && #[trigger] spec_objects_upto(
                cfg,
                n - 1,
            )[i] == spec_cell_obj_adds(cfg, cell)[w];
        assert(spec_objects_upto(cfg, n)[i] == spec_objects_upto(cfg, n - 1)[i]);
    }
}

/// Spawn certainty: a spawn rule with probability one fires at every cell
/// whose matched biome carries it, as long as the object registry resolves
/// the identifier — the chunk's object list holds such an object at the
/// cell's pixel position.
pub proof fn lemma_spawn_certain(cfg: GenConfig, cell: int, b: BiomeRule, q: int)
    requires
        0 <= cell < CHUNK_SIZE * CHUNK_SIZE,
        spec_cell_biome(cfg, cell) == Some(b),
        0 <= q < b.spawnable_objects@.len(),
        b.spawnable_objects@[q].probability == FIXED_ONE,
        spec_object_index(cfg.object_protos, b.spawnable_objects@[q].object_type@, 0)
            < cfg.object_protos.len(),
    ensures
        exists|i: int|
            0 <= i < spec_chunk_objects(cfg).len() && (#[trigger] spec_chunk_objects(
                cfg,
            )[i]).type_tag@ == b.spawnable_objects@[q].object_type@ && spec_chunk_objects(cfg)[i].x
                == spec_cell_px(cfg.chunk_pos, cell) && spec_chunk_objects(cfg)[i].y
                == spec_cell_py(cfg.chunk_pos, cell),
{
    let px = spec_cell_px(cfg.chunk_pos, cell);
    let py = spec_cell_py(cfg.chunk_pos, cell);
    let srs = b.spawnable_objects@;
    lemma_spawn_adds_certain(cfg, srs, 0, q, spec_rng_at(cfg, cell), px, py);
    let adds = spec_cell_obj_adds(cfg, cell);
    assert(adds == spec_spawn_adds(cfg, srs, 0, spec_rng_at(cfg, cell), px, py));
    let w = choose|w: int|
        0 <= w < spec_spawn_adds(cfg, srs, 0, spec_rng_at(cfg, cell), px, py).len() && (
        #[trigger] spec_spawn_adds(cfg, srs, 0, spec_rng_at(cfg, cell), px, py)[w]).type_tag@
            == srs[q].object_type@ && spec_spawn_adds(cfg, srs, 0, spec_rng_at(cfg, cell), px, py)[w].x
            == px && spec_spawn_adds(cfg, srs, 0, spec_rng_at(cfg, cell), px, py)[w].y == py;
    lemma_objects_upto_element(cfg, cell, (CHUNK_SIZE * CHUNK_SIZE) as int, w);
    let i = choose|i: int|
        0 <= i < spec_objects_upto(cfg, (CHUNK_SIZE * CHUNK_SIZE) as int).len()
            && #[trigger] spec_objects_upto(cfg, (CHUNK_SIZE * CHUNK_SIZE) as int)[i]
            == spec_cell_obj_adds(cfg, cell)[w];
    assert(spec_chunk_objects(cfg)[i] == adds[w]);
}

/// No rule anywhere offers this object type with a positive probability.
pub open spec fn never_spawned(rules: Seq<BiomeRule>, tag: Seq<char>) -> bool {
    forall|i: int, q: int|
        0 <= i < rules.len() && 0 <= q < rules[i].spawnable_objects@.len() && (
        #[trigger] rules[i].spawnable_objects@[q]).object_type@ == tag
            ==> rules[i].spawnable_objects@[q].probability == 0
}

proof fn lemma_spawn_adds_never(
    cfg: GenConfig,
    srs: Seq<SpawnRule>,
    j: int,
    rng: u64,
    px: i64,
    py: i64,
    tag: Seq<char>,
)
    requires
        forall|q: int|
            0 <= q < srs.len() && (#[trigger] srs[q]).object_type@ == tag ==> srs[q].probability
                == 0,
    ensures
        forall|w: int|
            0 <= w < spec_spawn_adds(cfg, srs, j, rng, px, py).len() ==> (#[trigger] spec_spawn_adds(
                cfg,
                srs,
                j,
                rng,
                px,
                py,
            )[w]).type_tag@ != tag,
    decreases srs.len() - j,
{
    if 0 <= j < srs.len() {
        lemma_draw_bounds(rng);
        lemma_spawn_adds_never(cfg, srs, j + 1, spec_step(rng), px, py, tag);
        let adds = spec_spawn_adds(cfg, srs, j, rng, px, py);
        let rest = spec_spawn_adds(cfg, srs, j + 1, spec_step(rng), px, py);
        let m = spec_object_index(cfg.object_protos, srs[j].object_type@, 0);
        lemma_object_index_characterization(cfg.object_protos, srs[j].object_type@, 0);
        if spec_draw(rng) < srs[j].probability && m < cfg.object_protos.len() {
            assert(srs[j].object_type@ != tag);
            assert forall|w: int| 0 <= w < adds.len() implies (#[trigger] adds[w]).type_tag@
                != tag by {
                if w == 0 {
                    assert(adds[0].type_tag@ == srs[j].object_type@);
                } else {
                    assert(adds[w] == rest[w - 1]);
                }
            }
        } else {
            assert(adds == rest);
        }
    }
}

proof fn lemma_cell_obj_adds_never(cfg: GenConfig, cell: int, tag: Seq<char>)
    requires
        never_spawned(cfg.rules, tag),
    ensures
        forall|w: int|
            0 <= w < spec_cell_obj_adds(cfg, cell).len() ==> (#[trigger] spec_cell_obj_adds(
                cfg,
                cell,
            )[w]).type_tag@ != tag,
{
    match spec_cell_biome(cfg, cell) {
        Option::None => {},
        Option::Some(b) => {
            let s = spec_cell_sample(cfg, cell);
            let m = spec_find_from(cfg.rules, s, 0);
            lemma_find_from_characterization(cfg.rules, s, 0);
            assert(0 <= m < cfg.rules.len() && b == cfg.rules[m]);
            assert forall|q: int|
                0 <= q < b.spawnable_objects@.len() && (#[trigger] b.spawnable_objects@[q]).object_type@
                    == tag implies b.spawnable_objects@[q].probability == 0 by {
                assert(cfg.rules[m].spawnable_objects@[q] == b.spawnable_objects@[q]);
            }
            lemma_spawn_adds_never(
                cfg,
                b.spawnable_objects@,
                0,
                spec_rng_at(cfg, cell),
                spec_cell_px(cfg.chunk_pos, cell),
                spec_cell_py(cfg.chunk_pos, cell),
                tag,
            );
        },
    }
}

proof fn lemma_objects_upto_never(cfg: GenConfig, n: int, tag: Seq<char>)
    requires
        never_spawned(cfg.rules, tag),
        n <= CHUNK_SIZE * CHUNK_SIZE,
    ensures
        forall|i: int|
            0 <= i < spec_objects_upto(cfg, n).len() ==> (#[trigger] spec_objects_upto(
                cfg,
                n,
            )[i]).type_tag@ != tag,
    decreases n,
{
    if n > 0 {
        lemma_objects_upto_never(cfg, n - 1, tag);
        lemma_cell_obj_adds_never(cfg, n - 1, tag);
        assert forall|i: int| 0 <= i < spec_objects_upto(cfg, n).len() implies (
        #[trigger] spec_objects_upto(cfg, n)[i]).type_tag@ != tag by {
            if i < spec_objects_upto(cfg, n - 1).len() {
                assert(spec_objects_upto(cfg, n)[i] == spec_objects_upto(cfg, n - 1)[i]);
            } else {
                assert(spec_objects_upto(cfg, n)[i] == spec_cell_obj_adds(cfg, n - 1)[i
                    - spec_objects_upto(cfg, n - 1).len()]);
            }
        }
    }
}

/// Spawn impossibility: when no rule offers an object type except with
/// probability zero, no object of that type appears in any chunk.
pub proof fn lemma_spawn_never(cfg: GenConfig, tag: Seq<char>)
    requires
        never_spawned(cfg.rules, tag),
    ensures
        forall|i: int|
            0 <= i < spec_chunk_objects(cfg).len() ==> (#[trigger] spec_chunk_objects(
                cfg,
            )[i]).type_tag@ != tag,
{
    lemma_objects_upto_never(cfg, (CHUNK_SIZE * CHUNK_SIZE) as int, tag);
}

} // verus!
