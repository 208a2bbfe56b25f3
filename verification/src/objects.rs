//! Spawnable objects and the object prototype registry.
//!
//! Like the tile registry: registered instances act as prototypes, and
//! `create_object_by_id` hands out a fresh copy of the first prototype whose
//! type tag matches.

use vstd::prelude::*;
use crate::util::str_eq;

verus! {

/// One placeable object instance: type identifier, pixel position, size.
pub struct Object {
    pub type_tag: String,
    pub x: i64,
    pub y: i64,
    pub width: i64,
    pub height: i64,
}

impl Object {
    pub fn get_type_tag(&self) -> (r: &str)
        ensures
            r@ == self.type_tag@,
    {
        self.type_tag.as_str()
    }

    pub fn get_pos(&self) -> (r: (i64, i64))
        ensures
            r == (self.x, self.y),
    {
        (self.x, self.y)
    }

    pub fn set_pos(&mut self, x: i64, y: i64)
        ensures
            final(self).type_tag == old(self).type_tag,
            final(self).width == old(self).width,
            final(self).height == old(self).height,
            final(self).x == x,
            final(self).y == y,
    {
        self.x = x;
        self.y = y;
    }

    pub fn get_size(&self) -> (r: (i64, i64))
        ensures
            r == (self.width, self.height),
    {
        (self.width, self.height)
    }
}

/// Index of the first prototype at or after `i` whose tag is `id`;
/// `objects.len()` if none matches.
pub open spec fn spec_object_index(objects: Seq<Object>, id: Seq<char>, i: int) -> int
    decreases objects.len() - i,
{
    if i < 0 || i >= objects.len() {
        objects.len() as int
    } else if objects[i].type_tag@ == id {
        i
    } else {
        spec_object_index(objects, id, i + 1)
    }
}

/// What `spec_object_index` returns: a position between `i` and the length,
/// whose prototype carries the tag if in range, with no earlier match.
pub proof fn lemma_object_index_characterization(objects: Seq<Object>, id: Seq<char>, i: int)
    requires
        0 <= i <= objects.len(),
    ensures
        i <= spec_object_index(objects, id, i) <= objects.len(),
        spec_object_index(objects, id, i) < objects.len() ==> objects[spec_object_index(
            objects,
            id,
            i,
        )].type_tag@ == id,
        forall|k: int| i <= k < spec_object_index(objects, id, i) ==> objects[k].type_tag@ != id,
    decreases objects.len() - i,
{
    if i < objects.len() && objects[i].type_tag@ != id {
        lemma_object_index_characterization(objects, id, i + 1);
    }
}

/// The object prototype registry.
pub struct ObjectRegistry {
    objects: Vec<Object>,
}

impl ObjectRegistry {
    /// The registered prototypes, in registration order.
    pub closed spec fn objects(&self) -> Seq<Object> {
        self.objects@
    }

    pub fn new() -> (r: ObjectRegistry)
        ensures
            r.objects() == Seq::<Object>::empty(),
    {
        ObjectRegistry { objects: Vec::new() }
    }

    /// Record a prototype, keyed by its own reported type tag.
    pub fn register(&mut self, object: Object)
        ensures
            final(self).objects() == old(self).objects().push(object),
    {
        self.objects.push(object);
    }

    /// A fresh copy of the first prototype tagged `id`, if one is registered.
    pub fn create_object_by_id(&self, id: &str) -> (r: Option<Object>)
        ensures
            ({
                let m = spec_object_index(self.objects(), id@, 0);
                &&& (r is Some <==> m < self.objects().len())
                &&& (r matches Some(o) ==> o == self.objects()[m])
            }),
    {
        let n = self.objects.len();
        let mut idx: usize = 0;
        while idx < n
            invariant
                0 <= idx <= n,
                n == self.objects().len(),
                spec_object_index(self.objects(), id@, 0) == spec_object_index(
                    self.objects(),
                    id@,
                    idx as int,
                ),
            decreases n - idx,
        {
            let proto = &self.objects[idx];
            if str_eq(proto.type_tag.as_str(), id) {
                proof {
                    assert(spec_object_index(self.objects(), id@, idx as int) == idx);
                }
                return Some(
                    Object {
                        type_tag: proto.type_tag.clone(),
                        x: proto.x,
                        y: proto.y,
                        width: proto.width,
                        height: proto.height,
                    },
                );
            }
            proof {
                assert(spec_object_index(self.objects(), id@, idx as int) == spec_object_index(
                    self.objects(),
                    id@,
                    idx as int + 1,
                ));
            }
            idx += 1;
        }
        None
    }
}

/// A tree decoration, one tile wide and two tiles tall.
pub struct Tree {
    pos: (i64, i64),
    size: (i64, i64),
}

impl Tree {
    /// The object's position.
    pub closed spec fn pos(&self) -> (i64, i64) {
        self.pos
    }

    /// The object's size.
    pub closed spec fn size(&self) -> (i64, i64) {
        self.size
    }

    pub fn new(pos: (i64, i64)) -> (t: Tree)
        ensures
            t.pos() == pos,
            t.size() == (16i64, 32i64),
    {
        Tree { pos, size: (16, 32) }
    }

    pub fn get_type_tag(&self) -> (r: &'static str)
        ensures
            r@ == "tree"@,
    {
        "tree"
    }

    pub fn get_pos(&self) -> (r: (i64, i64))
        ensures
            r == self.pos(),
    {
        self.pos
    }

    pub fn set_pos(&mut self, pos: (i64, i64))
        ensures
            final(self).pos() == pos,
            final(self).size() == old(self).size(),
    {
        self.pos = pos;
    }

    pub fn get_size(&self) -> (r: (i64, i64))
        ensures
            r == self.size(),
    {
        self.size
    }

    pub fn set_size(&mut self, size: (i64, i64))
        ensures
            final(self).size() == size,
            final(self).pos() == old(self).pos(),
    {
        self.size = size;
    }

    /// This object as a registry prototype.
    pub fn as_object(&self) -> (o: Object)
        ensures
            o.type_tag@ == "tree"@,
            o.x == self.pos().0,
            o.y == self.pos().1,
            o.width == self.size().0,
            o.height == self.size().1,
    {
        Object {
            type_tag: "tree".to_owned(),
            x: self.pos.0,
            y: self.pos.1,
            width: self.size.0,
            height: self.size.1,
        }
    }
}

/// A snowy tree decoration, one tile wide and two tiles tall.
pub struct SnowTree {
    pos: (i64, i64),
    size: (i64, i64),
}

impl SnowTree {
    /// The object's position.
    pub closed spec fn pos(&self) -> (i64, i64) {
        self.pos
    }

    /// The object's size.
    pub closed spec fn size(&self) -> (i64, i64) {
        self.size
    }

    pub fn new(pos: (i64, i64)) -> (t: SnowTree)
        ensures
            t.pos() == pos,
            t.size() == (16i64, 32i64),
    {
        SnowTree { pos, size: (16, 32) }
    }

    pub fn get_type_tag(&self) -> (r: &'static str)
        ensures
            r@ == "snow_tree"@,
    {
        "snow_tree"
    }

    pub fn get_pos(&self) -> (r: (i64, i64))
        ensures
            r == self.pos(),
    {
        self.pos
    }

    pub fn set_pos(&mut self, pos: (i64, i64))
        ensures
            final(self).pos() == pos,
            final(self).size() == old(self).size(),
    {
        self.pos = pos;
    }

    pub fn get_size(&self) -> (r: (i64, i64))
        ensures
            r == self.size(),
    {
        self.size
    }

    pub fn set_size(&mut self, size: (i64, i64))
        ensures
            final(self).size() == size,
            final(self).pos() == old(self).pos(),
    {
        self.size = size;
    }

    /// This object as a registry prototype.
    pub fn as_object(&self) -> (o: Object)
        ensures
            o.type_tag@ == "snow_tree"@,
            o.x == self.pos().0,
            o.y == self.pos().1,
            o.width == self.size().0,
            o.height == self.size().1,
    {
        Object {
            type_tag: "snow_tree".to_owned(),
            x: self.pos.0,
            y: self.pos.1,
            width: self.size.0,
            height: self.size.1,
        }
    }
}

/// A cactus decoration, one tile square; touching it hurts.
pub struct Cactus {
    pos: (i64, i64),
    size: (i64, i64),
    damage: i32,
}

impl Cactus {
    /// The object's position.
    pub closed spec fn pos(&self) -> (i64, i64) {
        self.pos
    }

    /// The object's size.
    pub closed spec fn size(&self) -> (i64, i64) {
        self.size
    }

    /// The damage dealt on contact.
    pub closed spec fn damage(&self) -> i32 {
        self.damage
    }

    pub fn new(pos: (i64, i64)) -> (c: Cactus)
        ensures
            c.pos() == pos,
            c.size() == (16i64, 16i64),
            c.damage() == 1,
    {
        Cactus { pos, size: (16, 16), damage: 1 }
    }

    pub fn get_type_tag(&self) -> (r: &'static str)
        ensures
            r@ == "cactus"@,
    {
        "cactus"
    }

    pub fn get_pos(&self) -> (r: (i64, i64))
        ensures
            r == self.pos(),
    {
        self.pos
    }

    pub fn set_pos(&mut self, pos: (i64, i64))
        ensures
            final(self).pos() == pos,
            final(self).size() == old(self).size(),
            final(self).damage() == old(self).damage(),
    {
        self.pos = pos;
    }

    pub fn get_size(&self) -> (r: (i64, i64))
        ensures
            r == self.size(),
    {
        self.size
    }

    pub fn set_size(&mut self, size: (i64, i64))
        ensures
            final(self).size() == size,
            final(self).pos() == old(self).pos(),
            final(self).damage() == old(self).damage(),
    {
        self.size = size;
    }

    /// This object as a registry prototype.
    pub fn as_object(&self) -> (o: Object)
        ensures
            o.type_tag@ == "cactus"@,
            o.x == self.pos().0,
            o.y == self.pos().1,
            o.width == self.size().0,
            o.height == self.size().1,
    {
        Object {
            type_tag: "cactus".to_owned(),
            x: self.pos.0,
            y: self.pos.1,
            width: self.size.0,
            height: self.size.1,
        }
    }
}

/// Register the fixed object catalog: tree, snow tree, cactus, player. The
/// player prototype is plain instance data here — one tile square, like every
/// other prototype; its live behavior is no concern of generation.
pub fn register_objects(registry: &mut ObjectRegistry)
    ensures
        final(registry).objects().len() == old(registry).objects().len() + 4,
        ({
            let n = old(registry).objects().len() as int;
            let objects = final(registry).objects();
            &&& objects.subrange(0, n) == old(registry).objects()
            &&& objects[n].type_tag@ == "tree"@ && objects[n].x == 0 && objects[n].y == 0
            &&& objects[n + 1].type_tag@ == "snow_tree"@ && objects[n + 1].x == 0 && objects[n
                + 1].y == 0
            &&& objects[n + 2].type_tag@ == "cactus"@ && objects[n + 2].x == 0 && objects[n
                + 2].y == 0
            &&& objects[n + 3].type_tag@ == "player"@ && objects[n + 3].x == 0 && objects[n
                + 3].y == 0 && objects[n + 3].width == 16 && objects[n + 3].height == 16
        }),
{
    registry.register(Tree::new((0, 0)).as_object());
    registry.register(SnowTree::new((0, 0)).as_object());
    registry.register(Cactus::new((0, 0)).as_object());
    registry.register(
        Object { type_tag: "player".to_owned(), x: 0, y: 0, width: 16, height: 16 },
    );
    proof {
        assert(registry.objects().subrange(0, old(registry).objects().len() as int) =~= old(
            registry,
        ).objects());
    }
}

} // verus!
