use vstd::prelude::*;

use crate::world::{Content, ContentKind, Tile, TileType};

verus! {

/// Side of the showcase world.
pub const SHOWCASE_SIZE: usize = 10;

/// Where the robot spawns in the showcase world.
pub const SHOWCASE_SPAWN: (usize, usize) = (0, 0);

pub open spec fn nothing() -> Content {
    Content { kind: ContentKind::Nothing, amount: 0 }
}

/// The content of the farm fields in rows one and two, column by column
/// (column five is the street).
pub open spec fn field_content(j: int) -> Content {
    if j == 0 {
        Content { kind: ContentKind::Rock, amount: 5 }
    } else if j == 1 || j == 2 || j == 3 || j == 6 {
        Content { kind: ContentKind::Tree, amount: 5 }
    } else if j == 4 || j == 8 {
        Content { kind: ContentKind::Garbage, amount: 5 }
    } else if j == 7 {
        Content { kind: ContentKind::Coin, amount: 2 }
    } else {
        nothing()
    }
}

/// The showcase world: a street down column five from a teleport in the top
/// left corner to a bottom row of banks and markets, farm fields, a pond,
/// mountains, a wall, hills and deep water, descending four metres a row.
pub open spec fn showcase_tile(i: int, j: int) -> Tile {
    let elevation = (40 - 4 * i) as usize;
    let street = Tile { tile_type: TileType::Street, content: nothing(), elevation };
    if i == 0 {
        if j == 0 {
            Tile { tile_type: TileType::Teleport(false), content: nothing(), elevation }
        } else {
            street
        }
    } else if i == 9 {
        if j == 0 || j == 8 {
            Tile { tile_type: TileType::Street, content: Content { kind: ContentKind::Bank, amount: 100 }, elevation }
        } else if j == 1 || j == 9 {
            Tile { tile_type: TileType::Street, content: Content { kind: ContentKind::Market, amount: 100 }, elevation }
        } else if j == 5 {
            Tile { tile_type: TileType::Teleport(false), content: nothing(), elevation }
        } else {
            street
        }
    } else if j == 5 {
        street
    } else if i == 1 || i == 2 {
        Tile { tile_type: TileType::Grass, content: field_content(j), elevation }
    } else if i == 3 && j < 5 {
        Tile { tile_type: TileType::ShallowWater, content: Content { kind: ContentKind::Fish, amount: 2 }, elevation }
    } else if i == 5 {
        if j < 5 {
            Tile { tile_type: TileType::Wall, content: nothing(), elevation }
        } else {
            Tile { tile_type: TileType::Hill, content: nothing(), elevation }
        }
    } else if i == 7 && j > 5 {
        Tile { tile_type: TileType::DeepWater, content: nothing(), elevation }
    } else if i == 8 && j < 5 {
        Tile { tile_type: TileType::Grass, content: nothing(), elevation }
    } else {
        Tile { tile_type: TileType::Mountain, content: nothing(), elevation }
    }
}

fn field(j: usize) -> (r: Content)
    ensures
        r == field_content(j as int),
{
    if j == 0 {
        Content { kind: ContentKind::Rock, amount: 5 }
    } else if j == 1 || j == 2 || j == 3 || j == 6 {
        Content { kind: ContentKind::Tree, amount: 5 }
    } else if j == 4 || j == 8 {
        Content { kind: ContentKind::Garbage, amount: 5 }
    } else if j == 7 {
        Content { kind: ContentKind::Coin, amount: 2 }
    } else {
        Content { kind: ContentKind::Nothing, amount: 0 }
    }
}

fn showcase_cell(i: usize, j: usize) -> (r: Tile)
    requires
        i < SHOWCASE_SIZE,
        j < SHOWCASE_SIZE,
    ensures
        r == showcase_tile(i as int, j as int),
{
    let elevation: usize = 40 - 4 * i;
    let none = Content { kind: ContentKind::Nothing, amount: 0 };
    let street = Tile { tile_type: TileType::Street, content: none, elevation };
    if i == 0 {
        if j == 0 {
            Tile { tile_type: TileType::Teleport(false), content: none, elevation }
        } else {
            street
        }
    } else if i == 9 {
        if j == 0 || j == 8 {
            Tile { tile_type: TileType::Street, content: Content { kind: ContentKind::Bank, amount: 100 }, elevation }
        } else if j == 1 || j == 9 {
            Tile { tile_type: TileType::Street, content: Content { kind: ContentKind::Market, amount: 100 }, elevation }
        } else if j == 5 {
            Tile { tile_type: TileType::Teleport(false), content: none, elevation }
        } else {
            street
        }
    } else if j == 5 {
        street
    } else if i == 1 || i == 2 {
        Tile { tile_type: TileType::Grass, content: field(j), elevation }
    } else if i == 3 && j < 5 {
        Tile { tile_type: TileType::ShallowWater, content: Content { kind: ContentKind::Fish, amount: 2 }, elevation }
    } else if i == 5 {
        if j < 5 {
            Tile { tile_type: TileType::Wall, content: none, elevation }
        } else {
            Tile { tile_type: TileType::Hill, content: none, elevation }
        }
    } else if i == 7 && j > 5 {
        Tile { tile_type: TileType::DeepWater, content: none, elevation }
    } else if i == 8 && j < 5 {
        Tile { tile_type: TileType::Grass, content: none, elevation }
    } else {
        Tile { tile_type: TileType::Mountain, content: none, elevation }
    }
}

/// The fixed ten-by-ten world used to show the robot at work.
#[derive(Clone, Copy, Debug)]
pub struct World10X10;

impl World10X10 {
    pub fn new() -> (r: World10X10) {
        World10X10
    }

    /// Lays out the showcase world and gives the robot's spawn position.
    pub fn gen(&self) -> (r: (Vec<Vec<Tile>>, (usize, usize)))
        ensures
            r.0@.len() == SHOWCASE_SIZE,
            forall|i: int| 0 <= i < SHOWCASE_SIZE ==> (#[trigger] r.0@[i])@.len() == SHOWCASE_SIZE,
            forall|i: int, j: int|
                0 <= i < SHOWCASE_SIZE && 0 <= j < SHOWCASE_SIZE ==> (#[trigger] r.0@[i]@[j]) == showcase_tile(i, j),
            r.1 == SHOWCASE_SPAWN,
    {
        let mut map: Vec<Vec<Tile>> = Vec::new();
        let mut i: usize = 0;
        while i < SHOWCASE_SIZE
            invariant
                i <= SHOWCASE_SIZE,
                map@.len() == i,
                forall|a: int| 0 <= a < i ==> (#[trigger] map@[a])@.len() == SHOWCASE_SIZE,
                forall|a: int, b: int|
                    0 <= a < i && 0 <= b < SHOWCASE_SIZE ==> (#[trigger] map@[a]@[b]) == showcase_tile(a, b),
            decreases SHOWCASE_SIZE - i,
        {
            let mut row: Vec<Tile> = Vec::new();
            let mut j: usize = 0;
            while j < SHOWCASE_SIZE
                invariant
                    i < SHOWCASE_SIZE,
                    j <= SHOWCASE_SIZE,
                    row@.len() == j,
                    forall|b: int| 0 <= b < j ==> (#[trigger] row@[b]) == showcase_tile(i as int, b),
                decreases SHOWCASE_SIZE - j,
            {
                row.push(showcase_cell(i, j));
                j = j + 1;
            }
            map.push(row);
            i = i + 1;
        }
        (map, SHOWCASE_SPAWN)
    }
}

} // verus!
