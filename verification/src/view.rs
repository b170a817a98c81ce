//! Looking at a map: the plain view of the map itself, and the view of an
//! observer for whom its own cell is the origin and its facing is up.
use crate::hex::{Direction, Hex, Position};
use crate::map::{HexMap, MapModel};
use crate::tile::Tile;
use vstd::prelude::*;

verus! {

/// A way of reading a map through coordinates of one's own.
pub trait MapView {
    /// Whether the view can be used.
    spec fn valid(&self) -> bool;

    /// The map that is looked at.
    spec fn map(&self) -> MapModel;

    /// The cell of the map that the view's coordinates `p` stand for.
    spec fn translated(&self, p: Hex) -> Hex;

    /// The terrain at the view's coordinates `pos`.
    fn at(&self, pos: &Position) -> (t: Tile)
        requires
            self.valid(),
            self.translated(pos@).representable(),
        ensures
            t == self.map().tile(self.translated(pos@)),
    ;

    /// The handle of the creature at the view's coordinates `pos`.
    fn creature_at(&self, pos: &Position) -> (c: Option<usize>)
        requires
            self.valid(),
            self.translated(pos@).representable(),
        ensures
            c == self.map().occupant(self.translated(pos@)),
    ;

    /// The map's coordinates of the view's coordinates `pos`.
    fn translate(&self, pos: &Position) -> (r: Position)
        requires
            self.valid(),
            self.translated(pos@).representable(),
        ensures
            r@ == self.translated(pos@),
    ;
}

/// The vector `v` turned clockwise by as many sixth-turns as `d` lies from
/// north: the vector that an observer facing `d` means by `v`.
pub open spec fn rotate(v: Hex, d: Direction) -> Hex {
    match d {
        Direction::N => Hex { x: v.x, y: v.y },
        Direction::S => Hex { x: -v.x, y: -v.y },
        Direction::NW => Hex { x: v.y, y: v.y - v.x },
        Direction::SE => Hex { x: -v.y, y: v.x - v.y },
        Direction::NE => Hex { x: v.x - v.y, y: v.x },
        Direction::SW => Hex { x: v.y - v.x, y: -v.x },
    }
}

/// The cell that an observer on `origin` facing `d` means by `p`.
pub open spec fn egocentric(origin: Hex, d: Direction, p: Hex) -> Hex {
    origin.plus(rotate(p, d))
}

/// A map seen from the cell `pos` by an observer who faces `dir`.
pub struct RelativeMap<'a> {
    map: &'a HexMap,
    pos: Position,
    dir: Direction,
}

impl<'a> RelativeMap<'a> {
    pub closed spec fn origin(&self) -> Hex {
        self.pos@
    }

    pub closed spec fn facing(&self) -> Direction {
        self.dir
    }

    pub closed spec fn underlying(&self) -> &'a HexMap {
        self.map
    }

    pub fn new(map: &'a HexMap, pos: &Position, dir: Direction) -> (r: RelativeMap<'a>)
        ensures
            r.underlying() == map,
            r.origin() == pos@,
            r.facing() == dir,
    {
        RelativeMap { map, pos: *pos, dir }
    }

    /// The map that is looked at.
    pub fn base(&self) -> (m: &'a HexMap)
        ensures
            m == self.underlying(),
    {
        self.map
    }
}

impl<'a> MapView for RelativeMap<'a> {
    open spec fn valid(&self) -> bool {
        self.underlying().wf()
    }

    open spec fn map(&self) -> MapModel {
        self.underlying()@
    }

    open spec fn translated(&self, p: Hex) -> Hex {
        egocentric(self.origin(), self.facing(), p)
    }

    fn at(&self, pos: &Position) -> (t: Tile) {
        let pos = self.translate(pos);
        self.map.at(&pos)
    }

    fn creature_at(&self, pos: &Position) -> (c: Option<usize>) {
        let pos = self.translate(pos);
        self.map.creature_at(&pos)
    }

    fn translate(&self, pos: &Position) -> (r: Position) {
        let ox: i128 = self.pos.x as i128;
        let oy: i128 = self.pos.y as i128;
        let x: i128 = pos.x as i128;
        let y: i128 = pos.y as i128;
        let (tx, ty): (i128, i128) = match self.dir {
            Direction::N => (ox + x, oy + y),
            Direction::S => (ox - x, oy - y),
            Direction::NW => (ox + y, oy + y - x),
            Direction::SE => (ox - y, oy - y + x),
            Direction::NE => (ox + x - y, oy + x),
            Direction::SW => (ox - x + y, oy - x),
        };
        Position { x: tx as i64, y: ty as i64 }
    }
}

impl MapView for HexMap {
    open spec fn valid(&self) -> bool {
        self.wf()
    }

    open spec fn map(&self) -> MapModel {
        self@
    }

    open spec fn translated(&self, p: Hex) -> Hex {
        p
    }

    fn at(&self, pos: &Position) -> (t: Tile) {
        self.tile_at(pos)
    }

    fn creature_at(&self, pos: &Position) -> (c: Option<usize>) {
        self.occupant_at(pos)
    }

    fn translate(&self, pos: &Position) -> (r: Position) {
        *pos
    }
}

/// Lists, column by column, the cells of the sheared rectangle that reaches
/// `rx` columns to each side of `cp` and `ry` rows above and below it, each
/// with the terrain that the view shows there. A negative reach gives no
/// cells.
pub fn each_in_vrect<T: MapView>(s: &T, cp: &Position, rx: i64, ry: i64) -> (found: Vec<
    (Position, Tile),
>)
    requires
        s.valid(),
        forall|k: int|
            0 <= k < vrect_count(rx as int, ry as int) ==> {
                let cell = #[trigger] vrect_cell(cp@, rx as int, ry as int, k);
                cell.representable() && s.translated(cell).representable()
            },
    ensures
        found.len() == vrect_count(rx as int, ry as int),
        forall|k: int|
            0 <= k < found.len() ==> {
                let cell = vrect_cell(cp@, rx as int, ry as int, k);
                &&& (#[trigger] found[k]).0@ == cell
                &&& found[k].1 == s.map().tile(s.translated(cell))
            },
{
    let mut found: Vec<(Position, Tile)> = Vec::new();
    if rx < 0 || ry < 0 {
        return found;
    }
    let rows: i128 = 2 * (ry as i128) + 1;
    let cols: i128 = 2 * (rx as i128) + 1;
    let mut i: i128 = 0;
    while i < cols
        invariant
            0 <= i <= cols,
            0 <= rx,
            0 <= ry,
            rows == 2 * ry + 1,
            cols == 2 * rx + 1,
            s.valid(),
            forall|k: int|
                0 <= k < vrect_count(rx as int, ry as int) ==> {
                    let cell = #[trigger] vrect_cell(cp@, rx as int, ry as int, k);
                    cell.representable() && s.translated(cell).representable()
                },
            found.len() == i * rows,
            forall|k: int|
                0 <= k < found.len() ==> {
                    let cell = vrect_cell(cp@, rx as int, ry as int, k);
                    &&& (#[trigger] found[k]).0@ == cell
                    &&& found[k].1 == s.map().tile(s.translated(cell))
                },
        decreases cols - i,
    {
        let mut j: i128 = 0;
        while j < rows
            invariant
                0 <= i < cols,
                0 <= j <= rows,
                0 <= rx,
                0 <= ry,
                rows == 2 * ry + 1,
                cols == 2 * rx + 1,
                s.valid(),
                forall|k: int|
                    0 <= k < vrect_count(rx as int, ry as int) ==> {
                        let cell = #[trigger] vrect_cell(cp@, rx as int, ry as int, k);
                        cell.representable() && s.translated(cell).representable()
                    },
                found.len() == i * rows + j,
                forall|k: int|
                    0 <= k < found.len() ==> {
                        let cell = vrect_cell(cp@, rx as int, ry as int, k);
                        &&& (#[trigger] found[k]).0@ == cell
                        &&& found[k].1 == s.map().tile(s.translated(cell))
                    },
            decreases rows - j,
        {
            let vx: i128 = i - rx as i128;
            let vy: i128 = j - ry as i128;
            let half: i128 = if vx >= 0 {
                vx / 2
            } else {
                -((1 - vx) / 2)
            };
            proof {
                let k = i * rows + j;
                vstd::arithmetic::div_mod::lemma_fundamental_div_mod_converse(
                    k,
                    rows as int,
                    i as int,
                    j as int,
                );
                assert(k < (2 * rx + 1) * (2 * ry + 1)) by (nonlinear_arith)
                    requires
                        k == i * rows + j,
                        0 <= i < cols,
                        0 <= j < rows,
                        rows == 2 * ry + 1,
                        cols == 2 * rx + 1,
                ;
                assert(0 <= k) by (nonlinear_arith)
                    requires
                        k == i * rows + j,
                        0 <= i,
                        0 <= j,
                        0 < rows,
                ;
                let cell = vrect_cell(cp@, rx as int, ry as int, k);
            }
            let x: i128 = cp.x as i128 + vx;
            let y: i128 = cp.y as i128 + vy + half;
            let p = Position { x: x as i64, y: y as i64 };
            let t = s.at(&p);
            found.push((p, t));
            j = j + 1;
        }
        proof {
            assert((i + 1) * rows == i * rows + rows) by (nonlinear_arith);
        }
        i = i + 1;
    }
    found
}

/// How many cells the rectangle of `each_in_vrect` has.
pub open spec fn vrect_count(rx: int, ry: int) -> int {
    if rx >= 0 && ry >= 0 {
        (2 * rx + 1) * (2 * ry + 1)
    } else {
        0
    }
}

/// The `k`-th cell, column by column, of the sheared rectangle around `cp`
/// that `each_in_vrect` lists.
pub open spec fn vrect_cell(cp: Hex, rx: int, ry: int, k: int) -> Hex {
    let vx = k / (2 * ry + 1) - rx;
    let vy = k % (2 * ry + 1) - ry;
    Hex { x: cp.x + vx, y: cp.y + vy + vx / 2 }
}

/// An observer means its own cell by the origin, and the cell in front of
/// it by the cell north of the origin.
pub proof fn lemma_egocentric_origin(origin: Hex, d: Direction)
    ensures
        egocentric(origin, d, Hex { x: 0, y: 0 }) == origin,
        egocentric(origin, d, (Hex { x: 0, y: 0 }).neighbor(Direction::N)) == origin.neighbor(d),
{
}

/// Observers that face opposite ways mean opposite vectors by the same
/// coordinates: their views are each other's mirror image about the origin.
pub proof fn lemma_opposite_facings_mirror(origin: Hex, d: Direction, p: Hex)
    ensures
        rotate(p, d.spec_opposite()) == (Hex { x: 0, y: 0 }).minus(rotate(p, d)),
        egocentric(origin, d.spec_opposite(), p).plus(egocentric(origin, d, p)) == origin.plus(
            origin,
        ),
        egocentric(origin, d.spec_opposite(), (Hex { x: 0, y: 0 }).minus(p)) == egocentric(
            origin,
            d,
            p,
        ),
{
}

/// Turning a vector by one facing and then by another turns it by both
/// together, so that every facing's transform is undone by the facing that
/// lies as far from north on the other side.
pub proof fn lemma_rotate_composes(v: Hex, a: Direction, b: Direction)
    ensures
        rotate(rotate(v, a), b) == rotate(v, a.rotated(b.index())),
        rotate(rotate(v, a), Direction::N.spec_relative_to(a)) == v,
{
}

/// Turning the step into a direction gives the step into the turned
/// direction: neighbours stay neighbours under every facing.
pub proof fn lemma_rotate_keeps_neighbors(origin: Hex, d: Direction, p: Hex, e: Direction)
    ensures
        egocentric(origin, d, p.neighbor(e)) == egocentric(origin, d, p).neighbor(
            e.rotated(d.index()),
        ),
{
}

} // verus!
