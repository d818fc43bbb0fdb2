use vstd::prelude::*;

verus! {

/// The kinds of tile a dungeon map is made of.
#[derive(Clone, Copy, Debug, PartialEq, Eq, Structural)]
pub enum TileType {
    Wall,
    Floor,
    DownStairs,
    UpStairs,
}

/// A tile that creatures can stand on.
pub open spec fn spec_tile_walkable(tt: TileType) -> bool {
    match tt {
        TileType::Wall => false,
        _ => true,
    }
}

/// A tile that blocks line of sight.
pub open spec fn spec_tile_opaque(tt: TileType) -> bool {
    tt == TileType::Wall
}

/// Whether a creature can stand on a tile of this kind.
pub fn tile_walkable(tt: TileType) -> (r: bool)
    ensures
        r == spec_tile_walkable(tt),
        r == (tt == TileType::Floor || tt == TileType::DownStairs || tt == TileType::UpStairs),
{
    match tt {
        TileType::Floor | TileType::DownStairs | TileType::UpStairs => true,
        TileType::Wall => false,
    }
}

/// Whether a tile of this kind blocks line of sight.
pub fn tile_opaque(tt: TileType) -> (r: bool)
    ensures
        r == spec_tile_opaque(tt),
        r == (tt == TileType::Wall),
{
    match tt {
        TileType::Wall => true,
        _ => false,
    }
}

} // verus!
