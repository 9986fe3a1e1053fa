use vstd::prelude::*;

verus! {

/// The categories of tile content that the agent tells apart.
#[derive(Clone, Copy, Debug, PartialEq, Eq, Hash, Structural)]
pub enum ContentKind {
    Rock,
    Tree,
    Garbage,
    Coin,
    Bank,
    Market,
    Fish,
    Other,
    Nothing,
}

/// What lies on a tile: its category and its quantity (for a bank, the coins it
/// can still take; for a market, the trades it has left).
#[derive(Clone, Copy, Debug, PartialEq, Eq, Hash, Structural)]
pub struct Content {
    pub kind: ContentKind,
    pub amount: usize,
}

/// The terrain of a tile.
#[derive(Clone, Copy, Debug, PartialEq, Eq, Hash, Structural)]
pub enum TileType {
    DeepWater,
    ShallowWater,
    Sand,
    Grass,
    Street,
    Hill,
    Mountain,
    Snow,
    Lava,
    Teleport(bool),
    Wall,
}

/// One known tile of the world.
#[derive(Clone, Copy, Debug, PartialEq, Eq, Hash, Structural)]
pub struct Tile {
    pub tile_type: TileType,
    pub content: Content,
    pub elevation: usize,
}

/// Terrain on which the robot may stand next to a street without getting wet.
pub open spec fn is_dry_walkable(t: TileType) -> bool {
    match t {
        TileType::Sand | TileType::Grass | TileType::Hill | TileType::Mountain | TileType::Snow => true,
        _ => false,
    }
}

pub fn dry_walkable(t: TileType) -> (r: bool)
    ensures
        r == is_dry_walkable(t),
{
    match t {
        TileType::Sand | TileType::Grass | TileType::Hill | TileType::Mountain | TileType::Snow => true,
        _ => false,
    }
}

} // verus!
