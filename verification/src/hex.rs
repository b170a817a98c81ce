//! Hex coordinate algebra: positions, the six directions, rotation and
//! neighbour arithmetic.
use vstd::arithmetic::div_mod::{
    lemma_add_mod_noop_right, lemma_fundamental_div_mod, lemma_fundamental_div_mod_converse,
};
use vstd::prelude::*;

verus! {

/// Floor remainder: the representative of `x` modulo `m` that lies in `0..m`.
pub fn modulo(x: i64, m: i64) -> (r: i64)
    requires
        m > 0,
    ensures
        r == x % m,
        0 <= r < m,
{
    let r = x % m;
    proof {
        if x < 0 {
            let k = (-x) % (m as int);
            let q = (-x) / (m as int);
            lemma_fundamental_div_mod(-x, m as int);
            if k == 0 {
                assert(x == (-q) * m + 0) by (nonlinear_arith)
                    requires
                        -x == m * q + k,
                        k == 0,
                ;
                lemma_fundamental_div_mod_converse(x as int, m as int, -q, 0);
            } else {
                assert(x == (-q - 1) * m + (m - k)) by (nonlinear_arith)
                    requires
                        -x == m * q + k,
                ;
                lemma_fundamental_div_mod_converse(x as int, m as int, -q - 1, m - k);
            }
        }
    }
    if r < 0 {
        r + m
    } else {
        r
    }
}

/// One of the six directions of the hex grid, clockwise from north.
#[derive(Clone, Copy, PartialEq, Eq, Structural, Debug)]
pub enum Direction {
    N,
    NE,
    SE,
    S,
    SW,
    NW,
}

/// A direction relative to a facing.
#[derive(Clone, Copy, PartialEq, Eq, Structural, Debug)]
pub enum RelativeDir {
    FORWARD,
    BACKWARD,
    RIGHT,
    LEFT,
}

/// A cell of the unbounded hex plane: the mathematical model of a `Position`.
pub struct Hex {
    pub x: int,
    pub y: int,
}

/// A cell address: signed pair in the sheared hex frame.
#[derive(Clone, Copy, PartialEq, Eq, Structural, Debug)]
pub struct Position {
    pub x: i64,
    pub y: i64,
}

impl RelativeDir {
    /// Number of clockwise sixth-turns that this relative direction stands for.
    pub open spec fn steps(self) -> int {
        match self {
            RelativeDir::FORWARD => 0,
            RelativeDir::BACKWARD => 3,
            RelativeDir::RIGHT => 1,
            RelativeDir::LEFT => 5,
        }
    }

    pub fn to_int(&self) -> (r: i64)
        ensures
            r == self.steps(),
    {
        match *self {
            RelativeDir::FORWARD => 0,
            RelativeDir::BACKWARD => 3,
            RelativeDir::RIGHT => 1,
            RelativeDir::LEFT => 5,
        }
    }
}

impl Direction {
    /// Position of the direction on the compass, `0` for north, clockwise.
    pub open spec fn index(self) -> int {
        match self {
            Direction::N => 0,
            Direction::NE => 1,
            Direction::SE => 2,
            Direction::S => 3,
            Direction::SW => 4,
            Direction::NW => 5,
        }
    }

    /// The direction whose compass index is `i`, for `i` in `0..6`.
    pub open spec fn from_index(i: int) -> Direction {
        if i == 0 {
            Direction::N
        } else if i == 1 {
            Direction::NE
        } else if i == 2 {
            Direction::SE
        } else if i == 3 {
            Direction::S
        } else if i == 4 {
            Direction::SW
        } else {
            Direction::NW
        }
    }

    /// The direction `k` sixth-turns clockwise of `self`; `k` may be negative.
    pub open spec fn rotated(self, k: int) -> Direction {
        Direction::from_index((self.index() + k) % 6)
    }

    pub open spec fn spec_left(self) -> Direction {
        self.rotated(-1)
    }

    pub open spec fn spec_right(self) -> Direction {
        self.rotated(1)
    }

    pub open spec fn spec_opposite(self) -> Direction {
        self.rotated(3)
    }

    pub open spec fn spec_turn(self, rd: RelativeDir) -> Direction {
        self.rotated(rd.steps())
    }

    /// The angular difference `self - dir`, as a direction counted from north.
    pub open spec fn spec_relative_to(self, dir: Direction) -> Direction {
        Direction::from_index((self.index() - dir.index()) % 6)
    }

    fn from_int(i: i64) -> (r: Direction)
        requires
            0 <= i < 6,
        ensures
            r == Direction::from_index(i as int),
            r.index() == i,
    {
        if i == 0 {
            Direction::N
        } else if i == 1 {
            Direction::NE
        } else if i == 2 {
            Direction::SE
        } else if i == 3 {
            Direction::S
        } else if i == 4 {
            Direction::SW
        } else {
            Direction::NW
        }
    }

    fn to_int(&self) -> (r: i64)
        ensures
            r == self.index(),
    {
        match *self {
            Direction::N => 0,
            Direction::NE => 1,
            Direction::SE => 2,
            Direction::S => 3,
            Direction::SW => 4,
            Direction::NW => 5,
        }
    }

    pub fn to_uint(&self) -> (r: usize)
        ensures
            r == self.index(),
    {
        match *self {
            Direction::N => 0,
            Direction::NE => 1,
            Direction::SE => 2,
            Direction::S => 3,
            Direction::SW => 4,
            Direction::NW => 5,
        }
    }

    /// Rotates by an arbitrary signed number of sixth-turns.
    pub fn turn_by_int(&self, i: i64) -> (r: Direction)
        ensures
            r == self.rotated(i as int),
    {
        let k = modulo(i, 6);
        let s = modulo(self.to_int() + k, 6);
        Direction::from_int(s)
    }

    pub fn turn(&self, rd: RelativeDir) -> (r: Direction)
        ensures
            r == self.spec_turn(rd),
    {
        self.turn_by_int(rd.to_int())
    }

    /// Same as `turn`, for callers that hold the direction mutably.
    pub fn turn_m(&mut self, rd: RelativeDir) -> (r: Direction)
        ensures
            r == old(self).spec_turn(rd),
            *final(self) == *old(self),
    {
        self.turn_by_int(rd.to_int())
    }

    /// Rotates the direction in place.
    pub fn turn_mut(&mut self, rd: RelativeDir)
        ensures
            *final(self) == old(self).spec_turn(rd),
    {
        let turned = self.turn_by_int(rd.to_int());
        *self = turned;
    }

    pub fn left(&self) -> (r: Direction)
        ensures
            r == self.spec_left(),
    {
        self.turn_by_int(-1)
    }

    pub fn right(&self) -> (r: Direction)
        ensures
            r == self.spec_right(),
    {
        self.turn_by_int(1)
    }

    pub fn opposite(&self) -> (r: Direction)
        ensures
            r == self.spec_opposite(),
    {
        self.turn_by_int(3)
    }

    pub fn relative_to(&self, dir: Direction) -> (r: Direction)
        ensures
            r == self.spec_relative_to(dir),
    {
        Direction::from_int(modulo(self.to_int() - dir.to_int(), 6))
    }
}

impl Hex {
    /// The cell adjacent to `self` in direction `d`.
    pub open spec fn neighbor(self, d: Direction) -> Hex {
        match d {
            Direction::N => Hex { x: self.x, y: self.y - 1 },
            Direction::S => Hex { x: self.x, y: self.y + 1 },
            Direction::SW => Hex { x: self.x - 1, y: self.y },
            Direction::NE => Hex { x: self.x + 1, y: self.y },
            Direction::NW => Hex { x: self.x - 1, y: self.y - 1 },
            Direction::SE => Hex { x: self.x + 1, y: self.y + 1 },
        }
    }

    /// Whether `other` is one of the six cells around `self`.
    pub open spec fn is_neighbor(self, other: Hex) -> bool {
        let rx = self.x - other.x;
        let ry = self.y - other.y;
        ||| (rx == 0 && ry == -1)
        ||| (rx == 0 && ry == 1)
        ||| (rx == -1 && ry == 0)
        ||| (rx == 1 && ry == 0)
        ||| (rx == -1 && ry == -1)
        ||| (rx == 1 && ry == 1)
    }

    pub open spec fn plus(self, other: Hex) -> Hex {
        Hex { x: self.x + other.x, y: self.y + other.y }
    }

    pub open spec fn minus(self, other: Hex) -> Hex {
        Hex { x: self.x - other.x, y: self.y - other.y }
    }

    /// The cell of a `width` by `height` torus that `self` falls on.
    pub open spec fn wrapped(self, width: int, height: int) -> Hex {
        Hex { x: self.x % width, y: self.y % height }
    }

    /// Whether both coordinates can be held by a `Position`.
    pub open spec fn representable(self) -> bool {
        i64::MIN <= self.x <= i64::MAX && i64::MIN <= self.y <= i64::MAX
    }

    /// How many cells the sheared rectangle has that reaches `up` rows above
    /// and `down` below, `left` columns before and `right` after a cell.
    pub open spec fn around_count(up: int, down: int, left: int, right: int) -> int {
        if up + down + 1 > 0 && left + right + 1 > 0 {
            (up + down + 1) * (left + right + 1)
        } else {
            0
        }
    }

    /// The `k`-th cell, row by row, of the sheared rectangle that spans
    /// `cols` columns starting `left` columns before `self` and whose first
    /// row lies `up` rows above it. Each column is shifted down by half its
    /// distance from the centre column, rounded towards the top.
    pub open spec fn around_cell(self, up: int, left: int, cols: int, k: int) -> Hex {
        let i = k / cols;
        let j = k % cols;
        Hex { x: self.x - left + j, y: self.y - up + i + (j - left) / 2 }
    }
}

impl View for Position {
    type V = Hex;

    open spec fn view(&self) -> Hex {
        Hex { x: self.x as int, y: self.y as int }
    }
}

impl Position {
    pub fn add(&self, pos: &Position) -> (r: Position)
        requires
            self@.plus(pos@).representable(),
        ensures
            r@ == self@.plus(pos@),
    {
        Position { x: self.x + pos.x, y: self.y + pos.y }
    }

    pub fn sub(&self, pos: &Position) -> (r: Position)
        requires
            self@.minus(pos@).representable(),
        ensures
            r@ == self@.minus(pos@),
    {
        Position { x: self.x - pos.x, y: self.y - pos.y }
    }

    /// The offset that leads from `pos` to `self`.
    pub fn relative_to(&self, pos: &Position) -> (r: Position)
        requires
            self@.minus(pos@).representable(),
        ensures
            r@ == self@.minus(pos@),
    {
        Position { x: self.x - pos.x, y: self.y - pos.y }
    }

    pub fn is_neighbor(&self, position: Position) -> (r: bool)
        ensures
            r == self@.is_neighbor(position@),
    {
        let rx: i128 = self.x as i128 - position.x as i128;
        let ry: i128 = self.y as i128 - position.y as i128;
        (rx == 0 && ry == -1) || (rx == 0 && ry == 1) || (rx == -1 && ry == 0) || (rx == 1 && ry
            == 0) || (rx == -1 && ry == -1) || (rx == 1 && ry == 1)
    }

    pub fn neighbor(&self, direction: Direction) -> (r: Position)
        requires
            i64::MIN < self.x < i64::MAX,
            i64::MIN < self.y < i64::MAX,
        ensures
            r@ == self@.neighbor(direction),
    {
        match direction {
            Direction::N => Position { x: self.x, y: self.y - 1 },
            Direction::S => Position { x: self.x, y: self.y + 1 },
            Direction::SW => Position { x: self.x - 1, y: self.y },
            Direction::NE => Position { x: self.x + 1, y: self.y },
            Direction::NW => Position { x: self.x - 1, y: self.y - 1 },
            Direction::SE => Position { x: self.x + 1, y: self.y + 1 },
        }
    }

    /// Lists, row by row, the cells of the sheared rectangle that reaches
    /// `up` rows above and `down` below, `left` columns before and `right`
    /// after this position. An extent may be negative; a rectangle without
    /// rows or without columns has no cells.
    pub fn each_around(&self, up: i64, down: i64, left: i64, right: i64) -> (cells: Vec<Position>)
        requires
            Hex::around_count(up as int, down as int, left as int, right as int) > 0 ==> {
                &&& i64::MIN <= self.x - left
                &&& self.x + right <= i64::MAX
                &&& i64::MIN <= self.y - up + (-left) / 2
                &&& self.y + down + right / 2 <= i64::MAX
            },
        ensures
            cells.len() == Hex::around_count(up as int, down as int, left as int, right as int),
            forall|k: int|
                0 <= k < cells.len() ==> (#[trigger] cells[k])@ == self@.around_cell(
                    up as int,
                    left as int,
                    left + right + 1,
                    k,
                ),
    {
        let cols: i128 = left as i128 + right as i128 + 1;
        let rows: i128 = up as i128 + down as i128 + 1;
        let mut cells: Vec<Position> = Vec::new();
        if rows <= 0 || cols <= 0 {
            return cells;
        }
        assert(rows * cols > 0) by (nonlinear_arith)
            requires
                rows > 0,
                cols > 0,
        ;
        let mut i: i128 = 0;
        while i < rows
            invariant
                0 <= i <= rows,
                0 < rows == up + down + 1,
                0 < cols == left + right + 1,
                i64::MIN <= self.x - left,
                self.x + right <= i64::MAX,
                i64::MIN <= self.y - up + (-left) / 2,
                self.y + down + right / 2 <= i64::MAX,
                cells.len() == i * cols,
                forall|k: int|
                    0 <= k < cells.len() ==> (#[trigger] cells[k])@ == self@.around_cell(
                        up as int,
                        left as int,
                        cols as int,
                        k,
                    ),
            decreases rows - i,
        {
            let mut j: i128 = 0;
            while j < cols
                invariant
                    0 <= i < rows,
                    0 <= j <= cols,
                    0 < rows == up + down + 1,
                    0 < cols == left + right + 1,
                    i64::MIN <= self.x - left,
                    self.x + right <= i64::MAX,
                    i64::MIN <= self.y - up + (-left) / 2,
                    self.y + down + right / 2 <= i64::MAX,
                    cells.len() == i * cols + j,
                    forall|k: int|
                        0 <= k < cells.len() ==> (#[trigger] cells[k])@ == self@.around_cell(
                            up as int,
                            left as int,
                            cols as int,
                            k,
                        ),
                decreases cols - j,
            {
                let d: i128 = j - left as i128;
                let half: i128 = if d >= 0 {
                    d / 2
                } else {
                    -((1 - d) / 2)
                };
                let x: i128 = self.x as i128 - left as i128 + j;
                let y: i128 = self.y as i128 - up as i128 + i + half;
                let cell = Position { x: x as i64, y: y as i64 };
                proof {
                    let k = i * cols + j;
                    lemma_fundamental_div_mod_converse(k, cols as int, i as int, j as int);
                }
                cells.push(cell);
                j = j + 1;
            }
            proof {
                assert((i + 1) * cols == i * cols + cols) by (nonlinear_arith);
            }
            i = i + 1;
        }
        cells
    }
}

/// Turning around twice, turning forward, and turning right then left all
/// give back the direction one started with.
pub proof fn lemma_rotation_identities(d: Direction)
    ensures
        d.spec_opposite().spec_opposite() == d,
        d.spec_turn(RelativeDir::FORWARD) == d,
        d.spec_right().spec_left() == d,
{
}

/// Rotations compose by adding their step counts: the six directions form a
/// cyclic group of order six.
pub proof fn lemma_rotation_composes(d: Direction, k1: int, k2: int)
    ensures
        d.rotated(k1).rotated(k2) == d.rotated(k1 + k2),
        d.rotated(k1 + k2) == d.rotated((k1 + k2) % 6),
        d.rotated(6) == d,
{
}

/// The angular difference undoes a rotation: turning `other` by the
/// difference `d - other` gives `d`.
pub proof fn lemma_relative_to_inverts_rotation(d: Direction, other: Direction)
    ensures
        other.rotated(d.spec_relative_to(other).index()) == d,
{
}

/// Stepping to a neighbour and then back in the opposite direction returns
/// to the starting cell.
pub proof fn lemma_neighbor_opposite(p: Hex, d: Direction)
    ensures
        p.neighbor(d).neighbor(d.spec_opposite()) == p,
{
}

/// Adjacency is exactly what the neighbour function produces.
pub proof fn lemma_is_neighbor_iff_some_direction(a: Hex, b: Hex)
    ensures
        a.is_neighbor(b) <==> exists|d: Direction| #[trigger] a.neighbor(d) == b,
{
    if a.is_neighbor(b) {
        let rx = a.x - b.x;
        let ry = a.y - b.y;
        let d = if rx == 0 && ry == -1 {
            Direction::S
        } else if rx == 0 && ry == 1 {
            Direction::N
        } else if rx == -1 && ry == 0 {
            Direction::NE
        } else if rx == 1 && ry == 0 {
            Direction::SW
        } else if rx == -1 && ry == -1 {
            Direction::SE
        } else {
            Direction::NW
        };
        assert(a.neighbor(d) == b);
    }
}

} // verus!
