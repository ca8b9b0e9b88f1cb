use vstd::prelude::*;
use crate::components::Rgb;

verus! {

/// One cell of the compact object world's grid: whether it blocks
/// movement and sight, and how it is drawn.
#[derive(Clone, PartialEq, Eq, Structural, Debug)]
pub struct Tile {
    pub blocked: bool,
    pub block_sight: bool,
    pub character: char,
    pub background_color: Rgb,
    pub foreground_color: Rgb,
    pub explored: bool,
}

impl Tile {
    /// A walkable, see-through, unexplored cell.
    pub fn empty() -> (t: Tile)
        ensures
            !t.blocked,
            !t.block_sight,
            t.character == ' ',
            !t.explored,
            t.background_color == (Rgb { r: 31, g: 24, b: 15 }),
            t.foreground_color == (Rgb { r: 31, g: 24, b: 15 }),
    {
        Tile {
            blocked: false,
            block_sight: false,
            character: ' ',
            background_color: Rgb { r: 31, g: 24, b: 15 },
            foreground_color: Rgb { r: 31, g: 24, b: 15 },
            explored: false,
        }
    }

    /// A solid, opaque, unexplored cell.
    pub fn wall() -> (t: Tile)
        ensures
            t.blocked,
            t.block_sight,
            t.character == '#',
            !t.explored,
            t.background_color == (Rgb { r: 94, g: 75, b: 47 }),
            t.foreground_color == (Rgb { r: 94, g: 75, b: 47 }),
    {
        Tile {
            blocked: true,
            block_sight: true,
            character: '#',
            background_color: Rgb { r: 94, g: 75, b: 47 },
            foreground_color: Rgb { r: 94, g: 75, b: 47 },
            explored: false,
        }
    }
}

} // verus!
