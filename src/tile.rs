use vstd::prelude::*;

verus! {

/// The kind of tile that a palette color stands for.
#[derive(Clone, Copy, Debug, PartialEq, Eq, Structural)]
pub enum BlockType {
    Empty,
    Hookable,
    Unhookable,
    Freeze,
    Spawn,
    Start,
    Finish,
    Custom(u8),
}

/// The game's numeric id of each tile kind.
pub open spec fn tile_id(b: BlockType) -> u8 {
    match b {
        BlockType::Empty => 0,
        BlockType::Hookable => 1,
        BlockType::Unhookable => 2,
        BlockType::Freeze => 9,
        BlockType::Spawn => 192,
        BlockType::Start => 33,
        BlockType::Finish => 34,
        BlockType::Custom(id) => id,
    }
}

impl BlockType {
    /// The tile id written into the map for this kind.
    pub fn get_id(self) -> (r: u8)
        ensures
            r == tile_id(self),
            self == BlockType::Empty ==> r == 0,
            self == BlockType::Hookable ==> r == 1,
            self == BlockType::Unhookable ==> r == 2,
            self == BlockType::Freeze ==> r == 9,
            self == BlockType::Start ==> r == 33,
            self == BlockType::Finish ==> r == 34,
            self == BlockType::Spawn ==> r == 192,
            forall|n: u8| self == BlockType::Custom(n) ==> r == n,
    {
        match self {
            BlockType::Empty => 0,
            BlockType::Hookable => 1,
            BlockType::Unhookable => 2,
            BlockType::Freeze => 9,
            BlockType::Spawn => 192,
            BlockType::Start => 33,
            BlockType::Finish => 34,
            BlockType::Custom(id) => id,
        }
    }
}

/// Whether the kind is one of the named tags rather than a custom id.
pub open spec fn is_named(b: BlockType) -> bool {
    !(b is Custom)
}

/// The named kinds have pairwise distinct ids, and a custom kind keeps its id:
/// on named kinds, and on custom kinds, the id table is one to one.
pub proof fn lemma_tile_id_one_to_one(a: BlockType, b: BlockType)
    requires
        is_named(a) == is_named(b),
        tile_id(a) == tile_id(b),
    ensures
        a == b,
{
}

} // verus!
