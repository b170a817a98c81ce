//! Terrain cells.
use vstd::prelude::*;

verus! {

/// The terrain of one cell.
#[derive(Clone, Copy, PartialEq, Eq, Structural, Debug)]
pub enum Tile {
    FLOOR,
    WALL,
}

impl Tile {
    /// Whether a creature may stand on the tile.
    pub open spec fn passable(self) -> bool {
        self != Tile::WALL
    }

    /// Whether sight continues past the tile.
    pub open spec fn transparent(self) -> bool {
        self != Tile::WALL
    }

    pub fn is_wall(&self) -> (r: bool)
        ensures
            r == (*self == Tile::WALL),
    {
        match *self {
            Tile::WALL => true,
            _ => false,
        }
    }

    pub fn is_floor(&self) -> (r: bool)
        ensures
            r == (*self == Tile::FLOOR),
    {
        match *self {
            Tile::FLOOR => true,
            _ => false,
        }
    }

    pub fn can_see_through(&self) -> (r: bool)
        ensures
            r == self.transparent(),
    {
        match *self {
            Tile::WALL => false,
            _ => true,
        }
    }

    pub fn is_passable(&self) -> (r: bool)
        ensures
            r == self.passable(),
    {
        match *self {
            Tile::WALL => false,
            _ => true,
        }
    }
}

} // verus!
