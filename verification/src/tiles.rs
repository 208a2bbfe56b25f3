//! Ground tiles and the tile prototype registry.
//!
//! The registry keeps registered tile instances as prototypes in
//! registration order; `create_tile_by_id` returns a fresh, independently
//! owned copy of the first prototype whose type tag matches, or nothing for
//! an unknown identifier.

use vstd::prelude::*;
use crate::util::str_eq;
use crate::TILE_SIZE;

verus! {

/// One ground tile instance: its type identifier and its pixel position.
pub struct Tile {
    pub type_tag: String,
    pub x: i64,
    pub y: i64,
}

impl Tile {
    pub fn get_type_tag(&self) -> (r: &str)
        ensures
            r@ == self.type_tag@,
    {
        self.type_tag.as_str()
    }

    pub fn get_pos(&self) -> (r: (i64, i64))
        ensures
            r == (self.x, self.y),
    {
        (self.x, self.y)
    }

    pub fn set_pos(&mut self, x: i64, y: i64)
        ensures
            final(self).type_tag == old(self).type_tag,
            final(self).x == x,
            final(self).y == y,
    {
        self.x = x;
        self.y = y;
    }

    pub fn get_size(&self) -> (r: (i64, i64))
        ensures
            r == (TILE_SIZE, TILE_SIZE),
    {
        (TILE_SIZE, TILE_SIZE)
    }
}

/// Index of the first prototype at or after `i` whose tag is `id`;
/// `tiles.len()` if none matches.
pub open spec fn spec_tile_index(tiles: Seq<Tile>, id: Seq<char>, i: int) -> int
    decreases tiles.len() - i,
{
    if i < 0 || i >= tiles.len() {
        tiles.len() as int
    } else if tiles[i].type_tag@ == id {
        i
    } else {
        spec_tile_index(tiles, id, i + 1)
    }
}

/// What `spec_tile_index` returns: a position between `i` and the length,
/// whose prototype carries the tag if in range, with no earlier match.
pub proof fn lemma_tile_index_characterization(tiles: Seq<Tile>, id: Seq<char>, i: int)
    requires
        0 <= i <= tiles.len(),
    ensures
        i <= spec_tile_index(tiles, id, i) <= tiles.len(),
        spec_tile_index(tiles, id, i) < tiles.len() ==> tiles[spec_tile_index(
            tiles,
            id,
            i,
        )].type_tag@ == id,
        forall|k: int| i <= k < spec_tile_index(tiles, id, i) ==> tiles[k].type_tag@ != id,
    decreases tiles.len() - i,
{
    if i < tiles.len() && tiles[i].type_tag@ != id {
        lemma_tile_index_characterization(tiles, id, i + 1);
    }
}

/// The tile prototype registry.
pub struct TileRegistry {
    tiles: Vec<Tile>,
}

impl TileRegistry {
    /// The registered prototypes, in registration order.
    pub closed spec fn tiles(&self) -> Seq<Tile> {
        self.tiles@
    }

    pub fn new() -> (r: TileRegistry)
        ensures
            r.tiles() == Seq::<Tile>::empty(),
    {
        TileRegistry { tiles: Vec::new() }
    }

    /// Record a prototype, keyed by its own reported type tag.
    pub fn register(&mut self, tile: Tile)
        ensures
            final(self).tiles() == old(self).tiles().push(tile),
    {
        self.tiles.push(tile);
    }

    /// A fresh copy of the first prototype tagged `id`, if one is registered.
    pub fn create_tile_by_id(&self, id: &str) -> (r: Option<Tile>)
        ensures
            ({
                let m = spec_tile_index(self.tiles(), id@, 0);
                &&& (r is Some <==> m < self.tiles().len())
                &&& (r matches Some(t) ==> t == self.tiles()[m])
            }),
    {
        let n = self.tiles.len();
        let mut idx: usize = 0;
        while idx < n
            invariant
                0 <= idx <= n,
                n == self.tiles().len(),
                spec_tile_index(self.tiles(), id@, 0) == spec_tile_index(
                    self.tiles(),
                    id@,
                    idx as int,
                ),
            decreases n - idx,
        {
            let proto = &self.tiles[idx];
            if str_eq(proto.type_tag.as_str(), id) {
                proof {
                    assert(spec_tile_index(self.tiles(), id@, idx as int) == idx);
                }
                return Some(Tile { type_tag: proto.type_tag.clone(), x: proto.x, y: proto.y });
            }
            proof {
                assert(spec_tile_index(self.tiles(), id@, idx as int) == spec_tile_index(
                    self.tiles(),
                    id@,
                    idx as int + 1,
                ));
            }
            idx += 1;
        }
        None
    }
}

/// A grass ground tile.
pub struct GrassTile {
    pos: (i64, i64),
}

impl GrassTile {
    /// The tile's position.
    pub closed spec fn pos(&self) -> (i64, i64) {
        self.pos
    }

    pub fn new(pos: (i64, i64)) -> (t: GrassTile)
        ensures
            t.pos() == pos,
    {
        GrassTile { pos }
    }

    pub fn get_type_tag(&self) -> (r: &'static str)
        ensures
            r@ == "grass"@,
    {
        "grass"
    }

    pub fn get_pos(&self) -> (r: (i64, i64))
        ensures
            r == self.pos(),
    {
        self.pos
    }

    pub fn set_pos(&mut self, pos: (i64, i64))
        ensures
            final(self).pos() == pos,
    {
        self.pos = pos;
    }

    pub fn get_size(&self) -> (r: (i64, i64))
        ensures
            r == (TILE_SIZE, TILE_SIZE),
    {
        (TILE_SIZE, TILE_SIZE)
    }

    /// This tile as a registry prototype.
    pub fn as_tile(&self) -> (t: Tile)
        ensures
            t.type_tag@ == "grass"@,
            t.x == self.pos().0,
            t.y == self.pos().1,
    {
        Tile { type_tag: "grass".to_owned(), x: self.pos.0, y: self.pos.1 }
    }
}

/// A sand ground tile.
pub struct SandTile {
    pos: (i64, i64),
}

impl SandTile {
    /// The tile's position.
    pub closed spec fn pos(&self) -> (i64, i64) {
        self.pos
    }

    pub fn new(pos: (i64, i64)) -> (t: SandTile)
        ensures
            t.pos() == pos,
    {
        SandTile { pos }
    }

    pub fn get_type_tag(&self) -> (r: &'static str)
        ensures
            r@ == "sand"@,
    {
        "sand"
    }

    pub fn get_pos(&self) -> (r: (i64, i64))
        ensures
            r == self.pos(),
    {
        self.pos
    }

    pub fn set_pos(&mut self, pos: (i64, i64))
        ensures
            final(self).pos() == pos,
    {
        self.pos = pos;
    }

    pub fn get_size(&self) -> (r: (i64, i64))
        ensures
            r == (TILE_SIZE, TILE_SIZE),
    {
        (TILE_SIZE, TILE_SIZE)
    }

    /// This tile as a registry prototype.
    pub fn as_tile(&self) -> (t: Tile)
        ensures
            t.type_tag@ == "sand"@,
            t.x == self.pos().0,
            t.y == self.pos().1,
    {
        Tile { type_tag: "sand".to_owned(), x: self.pos.0, y: self.pos.1 }
    }
}

/// A snowy grass ground tile.
pub struct SnowGrassTile {
    pos: (i64, i64),
}

impl SnowGrassTile {
    /// The tile's position.
    pub closed spec fn pos(&self) -> (i64, i64) {
        self.pos
    }

    pub fn new(pos: (i64, i64)) -> (t: SnowGrassTile)
        ensures
            t.pos() == pos,
    {
        SnowGrassTile { pos }
    }

    pub fn get_type_tag(&self) -> (r: &'static str)
        ensures
            r@ == "snowgrass"@,
    {
        "snowgrass"
    }

    pub fn get_pos(&self) -> (r: (i64, i64))
        ensures
            r == self.pos(),
    {
        self.pos
    }

    pub fn set_pos(&mut self, pos: (i64, i64))
        ensures
            final(self).pos() == pos,
    {
        self.pos = pos;
    }

    pub fn get_size(&self) -> (r: (i64, i64))
        ensures
            r == (TILE_SIZE, TILE_SIZE),
    {
        (TILE_SIZE, TILE_SIZE)
    }

    /// This tile as a registry prototype.
    pub fn as_tile(&self) -> (t: Tile)
        ensures
            t.type_tag@ == "snowgrass"@,
            t.x == self.pos().0,
            t.y == self.pos().1,
    {
        Tile { type_tag: "snowgrass".to_owned(), x: self.pos.0, y: self.pos.1 }
    }
}

/// A water ground tile.
pub struct WaterTile {
    pos: (i64, i64),
}

impl WaterTile {
    /// The tile's position.
    pub closed spec fn pos(&self) -> (i64, i64) {
        self.pos
    }

    pub fn new(pos: (i64, i64)) -> (t: WaterTile)
        ensures
            t.pos() == pos,
    {
        WaterTile { pos }
    }

    pub fn get_type_tag(&self) -> (r: &'static str)
        ensures
            r@ == "water"@,
    {
        "water"
    }

    pub fn get_pos(&self) -> (r: (i64, i64))
        ensures
            r == self.pos(),
    {
        self.pos
    }

    pub fn set_pos(&mut self, pos: (i64, i64))
        ensures
            final(self).pos() == pos,
    {
        self.pos = pos;
    }

    pub fn get_size(&self) -> (r: (i64, i64))
        ensures
            r == (TILE_SIZE, TILE_SIZE),
    {
        (TILE_SIZE, TILE_SIZE)
    }

    /// This tile as a registry prototype.
    pub fn as_tile(&self) -> (t: Tile)
        ensures
            t.type_tag@ == "water"@,
            t.x == self.pos().0,
            t.y == self.pos().1,
    {
        Tile { type_tag: "water".to_owned(), x: self.pos.0, y: self.pos.1 }
    }
}

/// Register the fixed tile catalog: grass, sand, snow grass, water.
pub fn register_tiles(registry: &mut TileRegistry)
    ensures
        final(registry).tiles().len() == old(registry).tiles().len() + 4,
        ({
            let n = old(registry).tiles().len() as int;
            let tiles = final(registry).tiles();
            &&& tiles.subrange(0, n) == old(registry).tiles()
            &&& tiles[n].type_tag@ == "grass"@ && tiles[n].x == 0 && tiles[n].y == 0
            &&& tiles[n + 1].type_tag@ == "sand"@ && tiles[n + 1].x == 0 && tiles[n + 1].y == 0
            &&& tiles[n + 2].type_tag@ == "snowgrass"@ && tiles[n + 2].x == 0 && tiles[n + 2].y
                == 0
            &&& tiles[n + 3].type_tag@ == "water"@ && tiles[n + 3].x == 0 && tiles[n + 3].y == 0
        }),
{
    registry.register(GrassTile::new((0, 0)).as_tile());
    registry.register(SandTile::new((0, 0)).as_tile());
    registry.register(SnowGrassTile::new((0, 0)).as_tile());
    registry.register(WaterTile::new((0, 0)).as_tile());
    proof {
        assert(registry.tiles().subrange(0, old(registry).tiles().len() as int) =~= old(
            registry,
        ).tiles());
    }
}

} // verus!
