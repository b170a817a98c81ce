//! Where things go on the screen: the pixel of a cell, the picture of a
//! tile or a creature on the sprite sheet, and the rectangles to copy
//! between. Nothing here draws.
use crate::hex::{Direction, Hex, Position};
use crate::tile::Tile;
use vstd::prelude::*;

verus! {

pub const SCREEN_WIDTH: usize = 800;

pub const SCREEN_HEIGHT: usize = 600;

pub const SCREEN_BPP: usize = 32;

pub const HEX_WIDTH: usize = 66;

pub const HEX_HEIGHT: usize = 56;

pub const HEX_SIDE_WIDTH: usize = 16;

pub const HEX_BORDER_WIDTH: usize = 5;

pub const HEX_BORDER_HEIGHT: usize = 5;

/// Width of a cell's picture, borders included.
pub const HEX_FULL_WIDTH: usize = 76;

/// Height of a cell's picture, borders included.
pub const HEX_FULL_HEIGHT: usize = 66;

/// A rectangle of pixels.
#[derive(Clone, Copy, PartialEq, Eq, Structural, Debug)]
pub struct Rect {
    pub x: i16,
    pub y: i16,
    pub w: u16,
    pub h: u16,
}

impl Hex {
    /// Left edge of the cell's picture: columns stand
    /// `HEX_WIDTH - HEX_SIDE_WIDTH` pixels apart.
    pub open spec fn pix_x(self) -> int {
        self.x * (HEX_WIDTH - HEX_SIDE_WIDTH) + HEX_BORDER_WIDTH
    }

    /// Top edge of the cell's picture: rows stand `HEX_HEIGHT` pixels apart,
    /// and each column lies half a cell higher than the one before.
    pub open spec fn pix_y(self) -> int {
        self.y * HEX_HEIGHT - self.x * (HEX_HEIGHT / 2) + HEX_BORDER_HEIGHT
    }

    pub open spec fn pix_cx(self) -> int {
        self.pix_x() + HEX_FULL_WIDTH / 2
    }

    pub open spec fn pix_cy(self) -> int {
        self.pix_y() + HEX_FULL_HEIGHT / 2
    }
}

impl Position {
    pub fn to_pix_x(&self) -> (r: i64)
        requires
            i64::MIN <= self@.pix_x() <= i64::MAX,
        ensures
            r == self@.pix_x(),
    {
        let r: i128 = self.x as i128 * 50 + 5;
        r as i64
    }

    pub fn to_pix_y(&self) -> (r: i64)
        requires
            i64::MIN <= self@.pix_y() <= i64::MAX,
        ensures
            r == self@.pix_y(),
    {
        let r: i128 = self.y as i128 * 56 - self.x as i128 * 28 + 5;
        r as i64
    }

    /// Horizontal centre of the cell's picture.
    pub fn to_pix_cx(&self) -> (r: i64)
        requires
            i64::MIN <= self@.pix_cx() <= i64::MAX,
        ensures
            r == self@.pix_cx(),
    {
        let r: i128 = self.x as i128 * 50 + 5 + 38;
        r as i64
    }

    /// Vertical centre of the cell's picture.
    pub fn to_pix_cy(&self) -> (r: i64)
        requires
            i64::MIN <= self@.pix_cy() <= i64::MAX,
        ensures
            r == self@.pix_cy(),
    {
        let r: i128 = self.y as i128 * 56 - self.x as i128 * 28 + 5 + 33;
        r as i64
    }

    /// The rectangle of the cell's picture.
    pub fn to_rect(&self) -> (r: Rect)
        requires
            i16::MIN <= self@.pix_x() <= i16::MAX,
            i16::MIN <= self@.pix_y() <= i16::MAX,
        ensures
            r.x == self@.pix_x(),
            r.y == self@.pix_y(),
            r.w == HEX_FULL_WIDTH,
            r.h == HEX_FULL_HEIGHT,
    {
        let x: i128 = self.x as i128 * 50 + 5;
        let y: i128 = self.y as i128 * 56 - self.x as i128 * 28 + 5;
        Rect { x: x as i16, y: y as i16, w: 76, h: 66 }
    }
}

/// A picture on the sprite sheet, by column and row.
#[derive(Clone, Copy, PartialEq, Eq, Structural, Debug)]
pub struct Sprite {
    pub x: usize,
    pub y: usize,
}

impl Sprite {
    /// The picture of a tile: floor on the second row and wall on the third,
    /// the remembered look one column after the seen one.
    pub open spec fn of_tile(tile: Tile, visible: bool) -> Sprite {
        Sprite {
            x: if visible {
                0
            } else {
                1
            },
            y: match tile {
                Tile::FLOOR => 1,
                Tile::WALL => 2,
            },
        }
    }

    pub fn for_tile(tile: Tile, visible: bool) -> (s: Sprite)
        ensures
            s == Sprite::of_tile(tile, visible),
    {
        let mut spr = match tile {
            Tile::FLOOR => Sprite { x: 0, y: 1 },
            Tile::WALL => Sprite { x: 0, y: 2 },
        };
        if !visible {
            spr.x = spr.x + 1;
        }
        spr
    }

    /// The picture of a creature that faces `dir` as seen by an onlooker who
    /// faces up: the fourth row, one column per direction.
    pub fn for_creature(dir: Direction) -> (s: Sprite)
        ensures
            s.x == dir.index(),
            s.y == 3,
    {
        Sprite { x: dir.to_uint(), y: 3 }
    }

    /// The picture of the player.
    pub fn human() -> (s: Sprite)
        ensures
            s == (Sprite { x: 1, y: 0 }),
    {
        Sprite { x: 1, y: 0 }
    }

    /// The picture's rectangle on the sprite sheet.
    pub fn to_rect(&self) -> (r: Rect)
        requires
            HEX_FULL_WIDTH * self.x <= i16::MAX,
            HEX_FULL_HEIGHT * self.y <= i16::MAX,
        ensures
            r.x == HEX_FULL_WIDTH * self.x,
            r.y == HEX_FULL_HEIGHT * self.y,
            r.w == HEX_FULL_WIDTH,
            r.h == HEX_FULL_HEIGHT,
    {
        Rect { x: (76 * self.x) as i16, y: (66 * self.y) as i16, w: 76, h: 66 }
    }
}

/// Where on the screen the origin of the drawn map lies.
#[derive(Clone, Copy, PartialEq, Eq, Structural, Debug)]
pub struct Viewport {
    pub x_offset: i64,
    pub y_offset: i64,
}

impl Viewport {
    pub fn new(x: i64, y: i64) -> (v: Viewport)
        ensures
            v.x_offset == x,
            v.y_offset == y,
    {
        Viewport { x_offset: x, y_offset: y }
    }

    /// The view that puts the origin in the middle of the screen's width and
    /// seven eighths down its height.
    pub fn for_screen() -> (v: Viewport)
        ensures
            v.x_offset == (SCREEN_WIDTH - HEX_FULL_WIDTH) / 2,
            v.y_offset == (SCREEN_HEIGHT - HEX_FULL_HEIGHT) * 7 / 8,
    {
        Viewport { x_offset: 362, y_offset: 467 }
    }

    /// The rectangle on the screen of the picture of the cell `pos`.
    pub fn place(&self, pos: &Position) -> (r: Rect)
        requires
            i16::MIN <= pos@.pix_x() + self.x_offset <= i16::MAX,
            i16::MIN <= pos@.pix_y() + self.y_offset <= i16::MAX,
        ensures
            r.x == pos@.pix_x() + self.x_offset,
            r.y == pos@.pix_y() + self.y_offset,
            r.w == HEX_FULL_WIDTH,
            r.h == HEX_FULL_HEIGHT,
    {
        let x: i128 = pos.x as i128 * 50 + 5 + self.x_offset as i128;
        let y: i128 = pos.y as i128 * 56 - pos.x as i128 * 28 + 5 + self.y_offset as i128;
        Rect { x: x as i16, y: y as i16, w: 76, h: 66 }
    }
}

} // verus!
