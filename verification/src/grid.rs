//! Rectangular grids of cells addressed on a torus, and the tile grid.
use crate::hex::{modulo, Hex, Position};
use crate::tile::Tile;
use vstd::prelude::*;

verus! {

/// Why a grid could not be built.
#[derive(Clone, Copy, PartialEq, Eq, Structural, Debug)]
pub enum MapError {
    /// The grid has no column or no row.
    ZeroSized,
    /// A side is longer than a position's coordinate can count.
    TooLarge,
    /// The columns differ in length.
    Ragged,
}

/// The columns of a nested vector, cell by cell.
pub open spec fn cells<T>(v: Seq<Vec<T>>) -> Seq<Seq<T>> {
    Seq::new(v.len(), |x: int| v[x]@)
}

/// Number of columns.
pub open spec fn grid_width<T>(g: Seq<Seq<T>>) -> int {
    g.len() as int
}

/// Number of rows, read off the first column.
pub open spec fn grid_height<T>(g: Seq<Seq<T>>) -> int {
    g[0].len() as int
}

/// Whether `g` is a rectangle with at least one cell whose sides a position
/// can count.
pub open spec fn grid_ok<T>(g: Seq<Seq<T>>) -> bool {
    &&& 0 < g.len() <= i64::MAX
    &&& 0 < g[0].len() <= i64::MAX
    &&& forall|x: int| 0 <= x < g.len() ==> (#[trigger] g[x]).len() == g[0].len()
}

/// What is wrong with `g` as a grid, if anything; an empty side is reported
/// first, then an oversized one, then unequal columns.
pub open spec fn grid_fault<T>(g: Seq<Seq<T>>) -> Option<MapError> {
    if g.len() == 0 || g[0].len() == 0 {
        Some(MapError::ZeroSized)
    } else if g.len() > i64::MAX || g[0].len() > i64::MAX {
        Some(MapError::TooLarge)
    } else if exists|x: int| 0 <= x < g.len() && (#[trigger] g[x]).len() != g[0].len() {
        Some(MapError::Ragged)
    } else {
        None
    }
}

/// Whether `p` lies inside the rectangle, without wrapping.
pub open spec fn in_grid<T>(g: Seq<Seq<T>>, p: Hex) -> bool {
    0 <= p.x < grid_width(g) && 0 <= p.y < grid_height(g)
}

/// The cell of the torus `g` that `p` falls on.
pub open spec fn wrap<T>(g: Seq<Seq<T>>, p: Hex) -> Hex {
    p.wrapped(grid_width(g), grid_height(g))
}

/// The content of the torus `g` at `p`.
pub open spec fn cell_at<T>(g: Seq<Seq<T>>, p: Hex) -> T {
    g[p.x % grid_width(g)][p.y % grid_height(g)]
}

/// The grid `g` with the cell that `p` falls on replaced by `value`.
pub open spec fn with_cell<T>(g: Seq<Seq<T>>, p: Hex, value: T) -> Seq<Seq<T>> {
    let q = wrap(g, p);
    g.update(q.x, g[q.x].update(q.y, value))
}

/// A grid of `width` columns and `height` rows that holds `value` everywhere.
pub open spec fn uniform<T>(width: int, height: int, value: T) -> Seq<Seq<T>> {
    Seq::new(width as nat, |x: int| Seq::new(height as nat, |y: int| value))
}

/// Wrapping lands inside the grid and leaves cells inside it alone.
pub proof fn lemma_wrap_in_grid<T>(g: Seq<Seq<T>>, p: Hex)
    requires
        grid_ok(g),
    ensures
        in_grid(g, wrap(g, p)),
        in_grid(g, p) ==> wrap(g, p) == p,
        wrap(g, wrap(g, p)) == wrap(g, p),
        cell_at(g, wrap(g, p)) == cell_at(g, p),
{
    let w = grid_width(g);
    let h = grid_height(g);
    vstd::arithmetic::div_mod::lemma_small_mod((p.x % w) as nat, w as nat);
    vstd::arithmetic::div_mod::lemma_small_mod((p.y % h) as nat, h as nat);
    if in_grid(g, p) {
        vstd::arithmetic::div_mod::lemma_small_mod(p.x as nat, w as nat);
        vstd::arithmetic::div_mod::lemma_small_mod(p.y as nat, h as nat);
    }
}

/// Replacing one cell of a grid keeps its shape and changes that cell only.
pub proof fn lemma_with_cell_shape<T>(g: Seq<Seq<T>>, p: Hex, value: T)
    requires
        grid_ok(g),
    ensures
        grid_ok(with_cell(g, p, value)),
        grid_width(with_cell(g, p, value)) == grid_width(g),
        grid_height(with_cell(g, p, value)) == grid_height(g),
        forall|x: int, y: int|
            0 <= x < grid_width(g) && 0 <= y < grid_height(g) ==> #[trigger] with_cell(
                g,
                p,
                value,
            )[x][y] == if x == wrap(g, p).x && y == wrap(g, p).y {
                value
            } else {
                g[x][y]
            },
{
}

/// Builds a grid that holds `value` in every cell.
pub fn filled_grid<T: Copy>(width: usize, height: usize, value: T) -> (v: Vec<Vec<T>>)
    ensures
        cells(v@) == uniform(width as int, height as int, value),
        v.len() == width,
        forall|x: int| 0 <= x < width ==> (#[trigger] v[x]).len() == height,
{
    let mut v: Vec<Vec<T>> = Vec::new();
    let mut x: usize = 0;
    while x < width
        invariant
            x <= width,
            v.len() == x,
            forall|i: int| 0 <= i < x ==> (#[trigger] v[i])@ == Seq::new(height as nat, |y: int| value),
        decreases width - x,
    {
        let mut column: Vec<T> = Vec::new();
        let mut y: usize = 0;
        while y < height
            invariant
                y <= height,
                column.len() == y,
                forall|j: int| 0 <= j < y ==> column[j] == value,
            decreases height - y,
        {
            column.push(value);
            y = y + 1;
        }
        v.push(column);
        x = x + 1;
    }
    v
}

/// Reads the cell `(x, y)` of a grid.
pub(crate) fn get_cell<T: Copy>(grid: &Vec<Vec<T>>, x: usize, y: usize) -> (value: T)
    requires
        grid_ok(cells(grid@)),
        x < grid_width(cells(grid@)),
        y < grid_height(cells(grid@)),
    ensures
        value == cells(grid@)[x as int][y as int],
        value == cell_at(cells(grid@), Hex { x: x as int, y: y as int }),
{
    proof {
        lemma_wrap_in_grid(cells(grid@), Hex { x: x as int, y: y as int });
    }
    grid[x][y]
}

/// Writes the cell `(x, y)` of a grid.
pub(crate) fn set_cell<T: Copy>(grid: &mut Vec<Vec<T>>, x: usize, y: usize, value: T)
    requires
        grid_ok(cells(old(grid)@)),
        x < grid_width(cells(old(grid)@)),
        y < grid_height(cells(old(grid)@)),
    ensures
        cells(final(grid)@) == with_cell(cells(old(grid)@), Hex { x: x as int, y: y as int }, value),
{
    proof {
        lemma_wrap_in_grid(cells(grid@), Hex { x: x as int, y: y as int });
    }
    grid[x][y] = value;
    proof {
        assert(cells(grid@) =~~= with_cell(
            cells(old(grid)@),
            Hex { x: x as int, y: y as int },
            value,
        ));
    }
}

/// The toroidal grid of terrain.
pub struct TileGrid {
    tiles: Vec<Vec<Tile>>,
    width: usize,
    height: usize,
}

impl View for TileGrid {
    type V = Seq<Seq<Tile>>;

    closed spec fn view(&self) -> Seq<Seq<Tile>> {
        cells(self.tiles@)
    }
}

impl TileGrid {
    /// The stored sides agree with the stored cells.
    pub closed spec fn consistent(&self) -> bool {
        self.width == self.tiles.len() && self.height == grid_height(cells(self.tiles@))
    }

    /// The grid is a rectangle with at least one cell.
    pub open spec fn wf(&self) -> bool {
        self.consistent() && grid_ok(self@)
    }

    /// Takes the columns of a grid; every column must hold one tile per row.
    pub fn new(tiles: Vec<Vec<Tile>>) -> (r: Result<TileGrid, MapError>)
        ensures
            match r {
                Ok(g) => grid_fault(cells(tiles@)) is None && g.wf() && g@ == cells(tiles@),
                Err(e) => grid_fault(cells(tiles@)) == Some(e),
            },
    {
        let ghost g = cells(tiles@);
        if tiles.len() == 0 {
            return Err(MapError::ZeroSized);
        }
        let height = tiles[0].len();
        if height == 0 {
            return Err(MapError::ZeroSized);
        }
        if tiles.len() as u64 > i64::MAX as u64 || height as u64 > i64::MAX as u64 {
            return Err(MapError::TooLarge);
        }
        let mut x: usize = 0;
        while x < tiles.len()
            invariant
                x <= tiles.len(),
                g == cells(tiles@),
                0 < tiles.len() <= i64::MAX,
                0 < height <= i64::MAX,
                height == g[0].len(),
                forall|i: int| 0 <= i < x ==> (#[trigger] g[i]).len() == height,
            decreases tiles.len() - x,
        {
            assert(g[x as int] == tiles@[x as int]@);
            if tiles[x].len() != height {
                return Err(MapError::Ragged);
            }
            x = x + 1;
        }
        let width = tiles.len();
        Ok(TileGrid { tiles, width, height })
    }

    /// A grid of one kind of tile.
    pub fn filled(width: usize, height: usize, tile: Tile) -> (r: Result<TileGrid, MapError>)
        ensures
            match r {
                Ok(g) => width > 0 && height > 0 && width <= i64::MAX && height <= i64::MAX
                    && g.wf() && g@ == uniform(width as int, height as int, tile),
                Err(MapError::ZeroSized) => width == 0 || height == 0,
                Err(MapError::TooLarge) => width > 0 && height > 0 && (width > i64::MAX || height
                    > i64::MAX),
                Err(MapError::Ragged) => false,
            },
    {
        if width == 0 || height == 0 {
            return Err(MapError::ZeroSized);
        }
        if width as u64 > i64::MAX as u64 || height as u64 > i64::MAX as u64 {
            return Err(MapError::TooLarge);
        }
        let tiles = filled_grid(width, height, tile);
        Ok(TileGrid { tiles, width, height })
    }

    pub fn width(&self) -> (w: usize)
        requires
            self.wf(),
        ensures
            w == grid_width(self@),
    {
        self.width
    }

    pub fn height(&self) -> (h: usize)
        requires
            self.wf(),
        ensures
            h == grid_height(self@),
    {
        self.height
    }

    /// The cell of the torus that `pos` falls on.
    pub fn wrap_position(&self, pos: &Position) -> (r: Position)
        requires
            self.wf(),
        ensures
            r@ == wrap(self@, pos@),
            in_grid(self@, r@),
            r.x <= usize::MAX,
            r.y <= usize::MAX,
    {
        Position { x: modulo(pos.x, self.width as i64), y: modulo(pos.y, self.height as i64) }
    }

    /// The tile at `pos`, wrapped onto the torus.
    pub fn at(&self, pos: &Position) -> (t: Tile)
        requires
            self.wf(),
        ensures
            t == cell_at(self@, pos@),
    {
        let p = self.wrap_position(pos);
        self.tiles[p.x as usize][p.y as usize]
    }

    /// Replaces the tile at `pos`, wrapped onto the torus.
    pub fn set(&mut self, pos: &Position, tile: Tile)
        requires
            old(self).wf(),
        ensures
            final(self).wf(),
            final(self)@ == with_cell(old(self)@, pos@, tile),
    {
        let p = self.wrap_position(pos);
        assert(self@[p.x as int] == self.tiles@[p.x as int]@);
        self.tiles[p.x as usize][p.y as usize] = tile;
        assert(self@ =~~= with_cell(old(self)@, pos@, tile));
    }
}

} // verus!
