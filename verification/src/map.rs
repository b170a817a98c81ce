//! The map: terrain, the creatures on it and the grid that records which
//! creature stands where.
use crate::action::Action;
use crate::creature::{Creature, CreatureModel, Phase};
use crate::grid::{
    cell_at, cells, filled_grid, get_cell, grid_fault, grid_height, grid_ok, grid_width, in_grid,
    lemma_with_cell_shape, lemma_wrap_in_grid, set_cell, uniform, with_cell, wrap, MapError, TileGrid,
};
use crate::hex::{Direction, Hex, Position, RelativeDir};
use crate::policy::MoveController;
use crate::random::random_below;
use crate::tile::Tile;
use rand::rngs::StdRng;
use vstd::prelude::*;

verus! {

/// Side of the square map that `HexMap::new` makes.
pub const MAP_WIDTH: usize = 32;

/// See `MAP_WIDTH`.
pub const MAP_HEIGHT: usize = 32;

/// The mathematical model of a map: its terrain, for each cell the handle of
/// the creature on it, and the creatures by handle.
pub struct MapModel {
    pub tiles: Seq<Seq<Tile>>,
    pub occupancy: Seq<Seq<Option<usize>>>,
    pub creatures: Seq<CreatureModel>,
}

impl MapModel {
    pub open spec fn width(self) -> int {
        grid_width(self.tiles)
    }

    pub open spec fn height(self) -> int {
        grid_height(self.tiles)
    }

    /// Whether `id` is the handle of a creature of the map.
    pub open spec fn has(self, id: usize) -> bool {
        id < self.creatures.len()
    }

    /// The terrain at `p`, wrapped onto the torus.
    pub open spec fn tile(self, p: Hex) -> Tile {
        cell_at(self.tiles, p)
    }

    /// The handle of the creature at `p`, wrapped onto the torus.
    pub open spec fn occupant(self, p: Hex) -> Option<usize> {
        cell_at(self.occupancy, p)
    }

    /// Terrain and occupancy are rectangles of one size; every creature
    /// stands on a cell of the map that records its handle; and every handle
    /// that a cell records is that of a creature standing there.
    pub open spec fn wf(self) -> bool {
        &&& grid_ok(self.tiles)
        &&& grid_ok(self.occupancy)
        &&& grid_width(self.occupancy) == self.width()
        &&& grid_height(self.occupancy) == self.height()
        &&& self.creatures.len() <= usize::MAX
        &&& forall|id: int|
            0 <= id < self.creatures.len() ==> {
                let c = #[trigger] self.creatures[id];
                &&& c.wf()
                &&& c.width == self.width()
                &&& c.height == self.height()
                &&& self.occupancy[c.pos.x][c.pos.y] == Some(id as usize)
            }
        &&& forall|x: int, y: int|
            0 <= x < self.width() && 0 <= y < self.height() ==> (
            #[trigger] self.occupancy[x][y] matches Some(id) ==> id < self.creatures.len()
                && self.creatures[id as int].pos == (Hex { x, y }))
    }

    /// A map of the terrain `tiles` without creatures.
    pub open spec fn empty(tiles: Seq<Seq<Tile>>) -> MapModel {
        MapModel {
            tiles,
            occupancy: uniform(grid_width(tiles), grid_height(tiles), None),
            creatures: Seq::empty(),
        }
    }

    /// The map with the creature `id` replaced by `c`.
    pub open spec fn with_creature(self, id: usize, c: CreatureModel) -> MapModel {
        MapModel { creatures: self.creatures.update(id as int, c), ..self }
    }

    /// Whether a creature can be put on the cell that `p` falls on: the
    /// terrain there is passable and nobody stands on it. (A map also cannot
    /// hold more creatures than a handle can count.)
    pub open spec fn can_spawn(self, p: Hex) -> bool {
        self.tile(p).passable() && self.occupant(p) is None && self.creatures.len() < usize::MAX
    }

    /// The map with a fresh creature on the cell that `p` falls on. Its
    /// handle is the number of creatures that were there before.
    pub open spec fn spawned(self, p: Hex, dir: Direction) -> MapModel {
        MapModel {
            occupancy: with_cell(self.occupancy, p, Some(self.creatures.len() as usize)),
            creatures: self.creatures.push(
                CreatureModel::fresh(wrap(self.tiles, p), dir, self.width(), self.height()),
            ),
            ..self
        }
    }

    /// The map with the creature `id` taken from its cell and put on the cell
    /// that `p` falls on.
    pub open spec fn relocated(self, id: usize, p: Hex) -> MapModel {
        let c = self.creatures[id as int];
        MapModel {
            occupancy: with_cell(with_cell(self.occupancy, c.pos, None), p, Some(id)),
            creatures: self.creatures.update(id as int, c.moved_to(wrap(self.tiles, p))),
            ..self
        }
    }

    /// A request to move the creature `id` to `p`: granted where nobody
    /// stands on the cell that `p` falls on, dropped otherwise.
    pub open spec fn after_move(self, id: usize, p: Hex) -> MapModel {
        if self.occupant(p) is None {
            self.relocated(id, p)
        } else {
            self
        }
    }

    /// A step of the creature `id` in the direction `rd` of its facing: the
    /// creature learns of the cell it steps at, and moves there if the
    /// terrain is passable and nobody is in the way.
    pub open spec fn stepped(self, id: usize, rd: RelativeDir) -> MapModel {
        let c = self.creatures[id as int];
        let t = c.target(rd);
        let learned = self.with_creature(id, c.learning(t));
        if self.tile(t).passable() {
            learned.after_move(id, t)
        } else {
            learned
        }
    }

    /// The effect of an action of the creature `id`. A strike leaves the map
    /// as it is: what a hit does is not decided here.
    pub open spec fn applied(self, id: usize, action: Action) -> MapModel {
        match action {
            Action::MOVE(rd) => self.stepped(id, rd),
            Action::TURN(rd) => self.with_creature(id, self.creatures[id as int].turned(rd)),
            Action::MELEE(_) => self,
            Action::WAIT => self,
        }
    }

    /// One tick of a creature that is not ready to choose: its timers
    /// advance, and an action whose wind-up is over takes effect.
    pub open spec fn advanced(self, id: usize) -> MapModel {
        let c = self.creatures[id as int];
        let ticked = self.with_creature(id, c.ticked());
        match c.phase() {
            Phase::Resolved(a) => ticked.applied(id, a),
            _ => ticked,
        }
    }

    /// The map once the creature `id` has taken `action` as its next one.
    pub open spec fn chosen(self, id: usize, action: Action) -> MapModel {
        self.with_creature(id, self.creatures[id as int].begun(action))
    }

    /// The map after the creature `id` has looked around afresh.
    pub open spec fn looked(self, id: usize) -> MapModel {
        let c = self.creatures[id as int];
        self.with_creature(id, c.refreshed(c.sight(self.tiles)))
    }
}

/// The map.
pub struct HexMap {
    terrain: TileGrid,
    creatures: Vec<Vec<Option<usize>>>,
    registry: Vec<Creature>,
}

impl View for HexMap {
    type V = MapModel;

    closed spec fn view(&self) -> MapModel {
        MapModel {
            tiles: self.terrain@,
            occupancy: cells(self.creatures@),
            creatures: models(self.registry@),
        }
    }
}

impl HexMap {
    /// The parts of the map are each in order.
    pub closed spec fn consistent(&self) -> bool {
        &&& self.terrain.consistent()
        &&& forall|id: int|
            0 <= id < self.registry.len() ==> (#[trigger] self.registry[id]).consistent()
    }

    pub open spec fn wf(&self) -> bool {
        self.consistent() && self@.wf()
    }

    /// A map of the given terrain, without creatures.
    pub fn from_terrain(terrain: TileGrid) -> (m: HexMap)
        requires
            terrain.wf(),
        ensures
            m.wf(),
            m@ == MapModel::empty(terrain@),
    {
        let width = terrain.width();
        let height = terrain.height();
        let creatures = filled_grid(width, height, None);
        let m = HexMap { terrain, creatures, registry: Vec::new() };
        proof {
            assert(m@.creatures =~= Seq::<CreatureModel>::empty());
        }
        m
    }

    /// A map whose terrain is read off a grid of draws, column by column: a
    /// wall where the draw is nought, floor elsewhere.
    pub fn from_draws(draws: &Vec<Vec<usize>>) -> (r: Result<HexMap, MapError>)
        ensures
            match r {
                Ok(m) => grid_fault(cells(draws@)) is None && m.wf() && m@ == MapModel::empty(
                    terrain_of_draws(cells(draws@)),
                ),
                Err(e) => grid_fault(cells(draws@)) == Some(e),
            },
    {
        let ghost d = cells(draws@);
        let mut tiles: Vec<Vec<Tile>> = Vec::new();
        let mut x: usize = 0;
        while x < draws.len()
            invariant
                x <= draws.len(),
                d == cells(draws@),
                tiles.len() == x,
                forall|i: int| 0 <= i < x ==> (#[trigger] tiles[i])@ == terrain_of_draws(d)[i],
            decreases draws.len() - x,
        {
            let mut column: Vec<Tile> = Vec::new();
            let mut y: usize = 0;
            while y < draws[x].len()
                invariant
                    x < draws.len(),
                    y <= draws[x as int].len(),
                    d == cells(draws@),
                    d[x as int] == draws@[x as int]@,
                    column.len() == y,
                    forall|j: int| 0 <= j < y ==> column[j] == terrain_of_draws(d)[x as int][j],
                decreases draws[x as int].len() - y,
            {
                let tile = if draws[x][y] == 0 {
                    Tile::WALL
                } else {
                    Tile::FLOOR
                };
                column.push(tile);
                y = y + 1;
            }
            tiles.push(column);
            x = x + 1;
        }
        proof {
            let t = terrain_of_draws(d);
            assert(cells(tiles@) =~= t);
            assert forall|i: int| 0 <= i < d.len() implies (#[trigger] t[i]).len() == d[i].len() by {}
            if exists|i: int| 0 <= i < d.len() && (#[trigger] d[i]).len() != d[0].len() {
                let i = choose|i: int| 0 <= i < d.len() && (#[trigger] d[i]).len() != d[0].len();
                assert(t[i].len() != t[0].len());
            }
        }
        match TileGrid::new(tiles) {
            Ok(terrain) => Ok(HexMap::from_terrain(terrain)),
            Err(e) => Err(e),
        }
    }

    /// A map of `width` columns and `height` rows on which every tile is,
    /// by a draw of its own, a wall one time in three and floor otherwise.
    /// Nothing makes the floor hang together.
    pub fn generate(width: usize, height: usize, rng: &mut StdRng) -> (r: Result<HexMap, MapError>)
        ensures
            match r {
                Ok(m) => 0 < width <= i64::MAX && 0 < height <= i64::MAX && m.wf() && m@.width()
                    == width && m@.height() == height && m@ == MapModel::empty(m@.tiles),
                Err(MapError::ZeroSized) => width == 0 || height == 0,
                Err(MapError::TooLarge) => width > 0 && height > 0 && (width > i64::MAX || height
                    > i64::MAX),
                Err(MapError::Ragged) => false,
            },
    {
        if width == 0 || height == 0 {
            return Err(MapError::ZeroSized);
        }
        if width as u64 > i64::MAX as u64 || height as u64 > i64::MAX as u64 {
            return Err(MapError::TooLarge);
        }
        let mut draws: Vec<Vec<usize>> = Vec::new();
        let mut x: usize = 0;
        while x < width
            invariant
                x <= width,
                draws.len() == x,
                forall|i: int| 0 <= i < x ==> (#[trigger] draws[i]).len() == height,
            decreases width - x,
        {
            let mut column: Vec<usize> = Vec::new();
            let mut y: usize = 0;
            while y < height
                invariant
                    y <= height,
                    column.len() == y,
                decreases height - y,
            {
                let draw = random_below(rng, 3);
                column.push(draw);
                y = y + 1;
            }
            draws.push(column);
            x = x + 1;
        }
        proof {
            let d = cells(draws@);
            assert forall|i: int| 0 <= i < d.len() implies (#[trigger] d[i]).len() == d[0].len() by {}
        }
        HexMap::from_draws(&draws)
    }

    /// A map of the usual size with random terrain.
    pub fn new(rng: &mut StdRng) -> (m: HexMap)
        ensures
            m.wf(),
            m@.width() == MAP_WIDTH,
            m@.height() == MAP_HEIGHT,
            m@ == MapModel::empty(m@.tiles),
    {
        match HexMap::generate(MAP_WIDTH, MAP_HEIGHT, rng) {
            Ok(m) => m,
            Err(_) => vstd::pervasive::unreached(),
        }
    }

    pub fn width(&self) -> (w: usize)
        requires
            self.wf(),
        ensures
            w == self@.width(),
    {
        self.terrain.width()
    }

    pub fn height(&self) -> (h: usize)
        requires
            self.wf(),
        ensures
            h == self@.height(),
    {
        self.terrain.height()
    }

    /// The terrain of the map.
    pub fn terrain(&self) -> (t: &TileGrid)
        requires
            self.wf(),
        ensures
            t.wf(),
            t@ == self@.tiles,
    {
        &self.terrain
    }

    /// How many creatures the map holds. Their handles are the numbers below.
    pub fn creature_count(&self) -> (n: usize)
        ensures
            n == self@.creatures.len(),
    {
        self.registry.len()
    }

    /// The creature with the handle `id`.
    pub fn creature(&self, id: usize) -> (c: &Creature)
        requires
            self.wf(),
            self@.has(id),
        ensures
            c.wf(),
            c@ == self@.creatures[id as int],
    {
        assert(self@.creatures[id as int].wf());
        &self.registry[id]
    }

    /// The cell of the torus that `pos` falls on.
    pub fn wrap_position(&self, pos: &Position) -> (r: Position)
        requires
            self.wf(),
        ensures
            r@ == wrap(self@.tiles, pos@),
            in_grid(self@.tiles, r@),
            r.x <= usize::MAX,
            r.y <= usize::MAX,
    {
        self.terrain.wrap_position(pos)
    }

    pub(crate) fn tile_at(&self, pos: &Position) -> (t: Tile)
        requires
            self.wf(),
        ensures
            t == self@.tile(pos@),
    {
        self.terrain.at(pos)
    }

    pub(crate) fn occupant_at(&self, pos: &Position) -> (c: Option<usize>)
        requires
            self.wf(),
        ensures
            c == self@.occupant(pos@),
    {
        let p = self.terrain.wrap_position(pos);
        get_cell(&self.creatures, p.x as usize, p.y as usize)
    }

    /// Puts a fresh creature that faces `dir` on the cell that `pos` falls
    /// on and returns its handle, unless the terrain there is impassable or
    /// somebody stands on it.
    pub fn spawn_creature(&mut self, pos: &Position, dir: Direction) -> (r: Option<usize>)
        requires
            old(self).wf(),
        ensures
            final(self).wf(),
            match r {
                Some(id) => old(self)@.can_spawn(pos@) && id == old(self)@.creatures.len()
                    && final(self)@ == old(self)@.spawned(pos@, dir),
                None => !old(self)@.can_spawn(pos@) && final(self)@ == old(self)@,
            },
    {
        let p = self.terrain.wrap_position(pos);
        proof {
            lemma_wrap_in_grid(self@.occupancy, pos@);
        }
        if !self.terrain.at(&p).is_passable() {
            return None;
        }
        match get_cell(&self.creatures, p.x as usize, p.y as usize) {
            Some(_) => None,
            None => {
                if self.registry.len() == usize::MAX {
                    return None;
                }
                let id = self.registry.len();
                let c = Creature::new(&self.terrain, &p, dir);
                self.registry.push(c);
                set_cell(&mut self.creatures, p.x as usize, p.y as usize, Some(id));
                proof {
                    let target = old(self)@.spawned(pos@, dir);
                    assert(self@.creatures =~= target.creatures);
                }
                Some(id)
            },
        }
    }

    /// Puts a fresh creature on the cell `(x, y)`, facing the direction that
    /// lies `turn` sixth-turns clockwise of north.
    pub fn spawn_drawn(&mut self, x: usize, y: usize, turn: usize) -> (r: Option<usize>)
        requires
            old(self).wf(),
            x < old(self)@.width(),
            y < old(self)@.height(),
            turn < 6,
        ensures
            final(self).wf(),
            match r {
                Some(id) => old(self)@.can_spawn(Hex { x: x as int, y: y as int }) && id == old(
                    self,
                )@.creatures.len() && final(self)@ == old(self)@.spawned(
                    Hex { x: x as int, y: y as int },
                    Direction::from_index(turn as int),
                ),
                None => !old(self)@.can_spawn(Hex { x: x as int, y: y as int }) && final(self)@
                    == old(self)@,
            },
    {
        let pos = Position { x: x as i64, y: y as i64 };
        let dir = Direction::N.turn_by_int(turn as i64);
        self.spawn_creature(&pos, dir)
    }

    /// Draws a cell and a facing at random, up to `attempts` times, until a
    /// creature can be put there; returns its handle, or nothing when every
    /// attempt fell on a cell that cannot take a creature. Where every cell
    /// of the map can take one, the first attempt succeeds whatever is drawn:
    /// the call fails only without attempts or on a map with a cell that is
    /// impassable or taken.
    pub fn spawn_random_creature(&mut self, rng: &mut StdRng, attempts: u32) -> (r: Option<usize>)
        requires
            old(self).wf(),
        ensures
            final(self).wf(),
            match r {
                Some(id) => attempts > 0 && id == old(self)@.creatures.len() && exists|
                    p: Hex,
                    dir: Direction,
                |
                    in_grid(old(self)@.tiles, p) && old(self)@.can_spawn(p) && final(self)@
                        == #[trigger] old(self)@.spawned(p, dir),
                None => final(self)@ == old(self)@ && (attempts == 0 || exists|p: Hex|
                    in_grid(old(self)@.tiles, p) && !#[trigger] old(self)@.can_spawn(p)),
            },
    {
        let width = self.terrain.width();
        let height = self.terrain.height();
        let mut left = attempts;
        while left > 0
            invariant
                self.wf(),
                self@ == old(self)@,
                width == self@.width(),
                height == self@.height(),
                left <= attempts,
                left < attempts ==> exists|p: Hex|
                    in_grid(old(self)@.tiles, p) && !#[trigger] old(self)@.can_spawn(p),
            decreases left,
        {
            let x = random_below(rng, width);
            let y = random_below(rng, height);
            let turn = random_below(rng, 6);
            match self.spawn_drawn(x, y, turn) {
                Some(id) => {
                    return Some(id);
                },
                None => {
                    assert(in_grid(old(self)@.tiles, Hex { x: x as int, y: y as int }));
                    assert(!old(self)@.can_spawn(Hex { x: x as int, y: y as int }));
                },
            }
            left = left - 1;
        }
        None
    }

    /// Moves the creature `id` to the cell that `pos` falls on, unless
    /// somebody stands there: then nothing happens.
    pub fn move_creature(&mut self, id: usize, pos: &Position)
        requires
            old(self).wf(),
            old(self)@.has(id),
        ensures
            final(self).wf(),
            final(self)@ == old(self)@.after_move(id, pos@),
    {
        let p = self.terrain.wrap_position(pos);
        match get_cell(&self.creatures, p.x as usize, p.y as usize) {
            Some(_) => {},
            None => {
                let ghost c = old(self)@.creatures[id as int];
                let from = self.registry[id].position();
                proof {
                    assert(self@.width() == self.creatures.len());
                    assert(self@.height() == self.creatures@[0].len());
                    assert((Hex { x: from.x as usize as int, y: from.y as usize as int })
                        == from@);
                }
                set_cell(&mut self.creatures, from.x as usize, from.y as usize, None);
                self.registry[id].relocate(p);
                set_cell(&mut self.creatures, p.x as usize, p.y as usize, Some(id));
                proof {
                    let target = old(self)@.relocated(id, pos@);
                    let cleared = with_cell(old(self)@.occupancy, c.pos, None);
                    lemma_wrap_in_grid(cleared, pos@);
                    assert(self@.creatures =~= target.creatures);
                    lemma_relocated_wf(old(self)@, id, pos@);
                }
            },
        }
    }

    /// Turns the creature `id`.
    pub fn turn(&mut self, id: usize, rd: RelativeDir)
        requires
            old(self).wf(),
            old(self)@.has(id),
        ensures
            final(self).wf(),
            final(self)@ == old(self)@.applied(id, Action::TURN(rd)),
    {
        assert(self.registry[id as int]@ == self@.creatures[id as int]);
        self.registry[id].turn(rd);
        proof {
            lemma_creature_replaced(*old(self), *self, id);
        }
    }

    /// Lets the creature `id` step in the direction `rd` of its facing: it
    /// learns of the cell it steps at, and moves there if the terrain is
    /// passable and nobody is in the way.
    pub fn do_move(&mut self, id: usize, rd: RelativeDir)
        requires
            old(self).wf(),
            old(self)@.has(id),
        ensures
            final(self).wf(),
            final(self)@ == old(self)@.stepped(id, rd),
    {
        assert(self.registry[id as int]@ == self@.creatures[id as int]);
        let d = self.registry[id].direction().turn(rd);
        let pos = self.registry[id].position();
        let new_position = pos.neighbor(d);
        self.registry[id].mark_known(&new_position);
        proof {
            lemma_creature_replaced(*old(self), *self, id);
        }
        if self.terrain.at(&new_position).is_passable() {
            self.move_creature(id, &new_position);
        }
    }

    /// Lets the creature `id` strike in the direction `rd` of its facing.
    /// Returns the handle of the creature that stands there and takes the
    /// hit, if there is one.
    pub fn melee(&mut self, id: usize, rd: RelativeDir) -> (struck: Option<usize>)
        requires
            old(self).wf(),
            old(self)@.has(id),
        ensures
            final(self).wf(),
            final(self)@ == old(self)@,
            struck == old(self)@.occupant(old(self)@.creatures[id as int].target(rd)),
            struck matches Some(other) ==> old(self)@.has(other),
    {
        let pos = self.registry[id].position();
        let d = self.registry[id].direction();
        let new_position = pos.neighbor(d.turn(rd));
        let found = self.occupant_at(&new_position);
        match found {
            Some(other) => {
                self.registry[other].hit();
                proof {
                    assert(self.registry@ =~= old(self).registry@);
                }
            },
            None => {},
        }
        found
    }

    /// Carries out the effect of an action of the creature `id`.
    pub fn apply(&mut self, id: usize, action: Action)
        requires
            old(self).wf(),
            old(self)@.has(id),
        ensures
            final(self).wf(),
            final(self)@ == old(self)@.applied(id, action),
    {
        match action {
            Action::MOVE(rd) => {
                self.do_move(id, rd);
            },
            Action::TURN(rd) => {
                self.turn(id, rd);
            },
            Action::MELEE(rd) => {
                let _ = self.melee(id, rd);
            },
            Action::WAIT => {},
        }
    }

    /// Gives the creature `id`, which is ready to choose, its next action
    /// and starts the wind-up.
    pub fn choose_action(&mut self, id: usize, action: Action)
        requires
            old(self).wf(),
            old(self)@.has(id),
            old(self)@.creatures[id as int].idle(),
        ensures
            final(self).wf(),
            final(self)@ == old(self)@.chosen(id, action),
    {
        self.registry[id].begin(action);
        proof {
            lemma_creature_replaced(*old(self), *self, id);
        }
    }

    /// One tick of the creature `id` without asking anybody: a timer that
    /// runs counts down, an action whose wind-up is over takes effect, and a
    /// creature that is ready to choose stays as it is.
    pub fn advance(&mut self, id: usize) -> (phase: Phase)
        requires
            old(self).wf(),
            old(self)@.has(id),
        ensures
            final(self).wf(),
            phase == old(self)@.creatures[id as int].phase(),
            final(self)@ == old(self)@.advanced(id),
    {
        let phase = self.registry[id].tick();
        proof {
            lemma_creature_replaced(*old(self), *self, id);
        }
        match phase {
            Phase::Resolved(action) => {
                self.apply(id, action);
            },
            _ => {},
        }
        phase
    }

    /// One tick of the creature `id`. A creature that is ready to choose
    /// asks `controller` for its next action and takes it; any other only
    /// advances. Returns whether an action took effect on this tick, which is
    /// when an onlooker has something new to see.
    pub fn tick<C: MoveController>(&mut self, id: usize, controller: &mut C) -> (redraw: bool)
        requires
            old(self).wf(),
            old(self)@.has(id),
        ensures
            final(self).wf(),
            redraw == (old(self)@.creatures[id as int].phase() is Resolved),
            old(self)@.creatures[id as int].idle() ==> exists|action: Action|
                final(self)@ == #[trigger] old(self)@.chosen(id, action),
            !old(self)@.creatures[id as int].idle() ==> final(self)@ == old(self)@.advanced(id),
    {
        if self.registry[id].is_idle() {
            let action = controller.get_move(&*self, id);
            self.choose_action(id, action);
            false
        } else {
            match self.advance(id) {
                Phase::Resolved(_) => true,
                _ => false,
            }
        }
    }

    /// Lets the creature `id` look around afresh.
    pub fn update_visibility(&mut self, id: usize)
        requires
            old(self).wf(),
            old(self)@.has(id),
        ensures
            final(self).wf(),
            final(self)@ == old(self)@.looked(id),
    {
        assert(self.registry[id as int]@ == self@.creatures[id as int]);
        self.registry[id].update_visibility(&self.terrain);
        proof {
            lemma_creature_replaced(*old(self), *self, id);
        }
    }

    /// Lists every cell of the map with its terrain, column by column.
    pub fn for_each_tile(&self) -> (found: Vec<(Position, Tile)>)
        requires
            self.wf(),
        ensures
            found.len() == self@.width() * self@.height(),
            forall|k: int|
                0 <= k < found.len() ==> {
                    let cell = Hex { x: k / self@.height(), y: k % self@.height() };
                    &&& (#[trigger] found[k]).0@ == cell
                    &&& found[k].1 == self@.tiles[cell.x][cell.y]
                },
    {
        let width = self.terrain.width();
        let height = self.terrain.height();
        let mut found: Vec<(Position, Tile)> = Vec::new();
        let mut x: usize = 0;
        while x < width
            invariant
                self.wf(),
                x <= width,
                width == self@.width(),
                height == self@.height(),
                found.len() == x * height,
                forall|k: int|
                    0 <= k < found.len() ==> {
                        let cell = Hex { x: k / self@.height(), y: k % self@.height() };
                        &&& (#[trigger] found[k]).0@ == cell
                        &&& found[k].1 == self@.tiles[cell.x][cell.y]
                    },
            decreases width - x,
        {
            let mut y: usize = 0;
            while y < height
                invariant
                    self.wf(),
                    x < width,
                    y <= height,
                    width == self@.width(),
                    height == self@.height(),
                    found.len() == x * height + y,
                    forall|k: int|
                        0 <= k < found.len() ==> {
                            let cell = Hex { x: k / self@.height(), y: k % self@.height() };
                            &&& (#[trigger] found[k]).0@ == cell
                            &&& found[k].1 == self@.tiles[cell.x][cell.y]
                        },
                decreases height - y,
            {
                let p = Position { x: x as i64, y: y as i64 };
                let t = self.terrain.at(&p);
                proof {
                    lemma_wrap_in_grid(self@.tiles, p@);
                    vstd::arithmetic::div_mod::lemma_fundamental_div_mod_converse(
                        x * height + y,
                        height as int,
                        x as int,
                        y as int,
                    );
                }
                found.push((p, t));
                y = y + 1;
            }
            proof {
                assert((x + 1) * height == x * height + height) by (nonlinear_arith);
            }
            x = x + 1;
        }
        found
    }

    /// Lists the handles of the creatures in the order in which their cells
    /// come, column by column.
    pub fn for_each_creature(&self) -> (found: Vec<usize>)
        requires
            self.wf(),
        ensures
            found@ == scan(self@.occupancy, (self@.width() * self@.height()) as nat),
            forall|id: usize| self@.has(id) <==> found@.contains(id),
    {
        let width = self.terrain.width();
        let height = self.terrain.height();
        let mut found: Vec<usize> = Vec::new();
        let mut x: usize = 0;
        while x < width
            invariant
                self.wf(),
                x <= width,
                width == self@.width(),
                height == self@.height(),
                found@ == scan(self@.occupancy, (x * height) as nat),
            decreases width - x,
        {
            let mut y: usize = 0;
            while y < height
                invariant
                    self.wf(),
                    x < width,
                    y <= height,
                    width == self@.width(),
                    height == self@.height(),
                    found@ == scan(self@.occupancy, (x * height + y) as nat),
                decreases height - y,
            {
                proof {
                    vstd::arithmetic::div_mod::lemma_fundamental_div_mod_converse(
                        x * height + y,
                        height as int,
                        x as int,
                        y as int,
                    );
                }
                match get_cell(&self.creatures, x, y) {
                    Some(id) => {
                        found.push(id);
                    },
                    None => {},
                }
                y = y + 1;
            }
            proof {
                assert((x + 1) * height == x * height + height) by (nonlinear_arith);
            }
            x = x + 1;
        }
        proof {
            lemma_scan_lists_creatures(self@);
        }
        found
    }
}

/// After a creature has changed in place without leaving its cell, the map
/// is the old one with that creature replaced.
proof fn lemma_creature_replaced(before: HexMap, after: HexMap, id: usize)
    requires
        before.wf(),
        before@.has(id),
        after.terrain == before.terrain,
        after.creatures == before.creatures,
        after.registry@ == before.registry@.update(id as int, after.registry[id as int]),
        after.registry[id as int].wf(),
        after.registry[id as int]@.pos == before.registry[id as int]@.pos,
        after.registry[id as int]@.width == before.registry[id as int]@.width,
        after.registry[id as int]@.height == before.registry[id as int]@.height,
    ensures
        after.wf(),
        after@ == before@.with_creature(id, after.registry[id as int]@),
{
    let c = after.registry[id as int]@;
    assert(after@.creatures =~= before@.creatures.update(id as int, c));
    lemma_with_creature_wf(before@, id, c);
}

/// The handles that the first `n` cells of a grid record, column by column.
pub open spec fn scan(occupancy: Seq<Seq<Option<usize>>>, n: nat) -> Seq<usize>
    decreases n,
{
    if n == 0 {
        Seq::empty()
    } else {
        let k = n - 1;
        let before = scan(occupancy, k as nat);
        match occupancy[k / grid_height(occupancy)][k % grid_height(occupancy)] {
            Some(id) => before.push(id),
            None => before,
        }
    }
}

/// A handle is listed among the first `n` cells exactly if one of them
/// records it.
pub proof fn lemma_scan_contains(occupancy: Seq<Seq<Option<usize>>>, n: nat, id: usize)
    ensures
        scan(occupancy, n).contains(id) <==> exists|k: int|
            0 <= k < n && #[trigger] occupancy[k / grid_height(occupancy)][k % grid_height(
                occupancy,
            )] == Some(id),
    decreases n,
{
    let h = grid_height(occupancy);
    if n > 0 {
        let k = n - 1;
        let before = scan(occupancy, k as nat);
        lemma_scan_contains(occupancy, k as nat, id);
        match occupancy[k / h][k % h] {
            Some(found) => {
                if found == id {
                    assert(before.push(found)[before.len() as int] == id);
                } else {
                    if before.contains(id) {
                        let i = choose|i: int| 0 <= i < before.len() && before[i] == id;
                        assert(before.push(found)[i] == id);
                    }
                }
            },
            None => {},
        }
    }
}

/// Scanning a whole well-formed map lists exactly the handles of its
/// creatures.
pub proof fn lemma_scan_lists_creatures(m: MapModel)
    requires
        m.wf(),
    ensures
        forall|id: usize|
            m.has(id) <==> #[trigger] scan(m.occupancy, (m.width() * m.height()) as nat).contains(
                id,
            ),
{
    let w = m.width();
    let h = m.height();
    let n = (w * h) as nat;
    assert(w * h >= 0) by (nonlinear_arith)
        requires
            w > 0,
            h > 0,
    ;
    assert forall|id: usize| m.has(id) <==> #[trigger] scan(m.occupancy, n).contains(id) by {
        lemma_scan_contains(m.occupancy, n, id);
        if m.has(id) {
            let c = m.creatures[id as int];
            let k = c.pos.x * h + c.pos.y;
            vstd::arithmetic::div_mod::lemma_fundamental_div_mod_converse(k, h, c.pos.x, c.pos.y);
            assert(k < w * h) by (nonlinear_arith)
                requires
                    k == c.pos.x * h + c.pos.y,
                    0 <= c.pos.x < w,
                    0 <= c.pos.y < h,
            ;
            assert(0 <= k) by (nonlinear_arith)
                requires
                    k == c.pos.x * h + c.pos.y,
                    0 <= c.pos.x,
                    0 <= c.pos.y,
                    h > 0,
            ;
        }
        if scan(m.occupancy, n).contains(id) {
            let k = choose|k: int| 0 <= k < n && #[trigger] m.occupancy[k / h][k % h] == Some(id);
            vstd::arithmetic::div_mod::lemma_fundamental_div_mod(k, h);
            let x = k / h;
            let y = k % h;
            assert(0 <= x < w) by (nonlinear_arith)
                requires
                    k == h * x + y,
                    0 <= y < h,
                    0 <= k < w * h,
                    w > 0,
            ;
        }
    }
}

/// The terrain that a grid of draws stands for: a wall where the draw is
/// nought, floor elsewhere.
pub open spec fn terrain_of_draws(draws: Seq<Seq<usize>>) -> Seq<Seq<Tile>> {
    Seq::new(
        draws.len(),
        |x: int|
            Seq::new(
                draws[x].len(),
                |y: int|
                    if draws[x][y] == 0 {
                        Tile::WALL
                    } else {
                        Tile::FLOOR
                    },
            ),
    )
}

/// The models of the creatures of a registry, by handle.
pub open spec fn models(registry: Seq<Creature>) -> Seq<CreatureModel> {
    Seq::new(registry.len(), |id: int| registry[id]@)
}

/// A map without creatures is well formed.
pub proof fn lemma_empty_wf(tiles: Seq<Seq<Tile>>)
    requires
        grid_ok(tiles),
    ensures
        MapModel::empty(tiles).wf(),
{
}

/// Replacing a creature by one that stands where it stood on the same map
/// keeps the map well formed.
pub proof fn lemma_with_creature_wf(m: MapModel, id: usize, c: CreatureModel)
    requires
        m.wf(),
        m.has(id),
        c.wf(),
        c.pos == m.creatures[id as int].pos,
        c.width == m.width(),
        c.height == m.height(),
    ensures
        m.with_creature(id, c).wf(),
{
}

/// Putting a fresh creature on a free cell keeps the map well formed.
pub proof fn lemma_spawned_wf(m: MapModel, p: Hex, dir: Direction)
    requires
        m.wf(),
        m.occupant(p) is None,
        m.creatures.len() < usize::MAX,
    ensures
        m.spawned(p, dir).wf(),
{
}

/// Moving a creature to a free cell keeps the map well formed.
pub proof fn lemma_relocated_wf(m: MapModel, id: usize, p: Hex)
    requires
        m.wf(),
        m.has(id),
        m.occupant(p) is None,
    ensures
        m.relocated(id, p).wf(),
{
    lemma_wrap_in_grid(m.occupancy, m.creatures[id as int].pos);
}

/// A creature that learns of a cell stays a creature of its map.
pub proof fn lemma_learning_wf(m: MapModel, id: usize, p: Hex)
    requires
        m.wf(),
        m.has(id),
    ensures
        m.creatures[id as int].learning(p).wf(),
        m.with_creature(id, m.creatures[id as int].learning(p)).wf(),
{
}

/// When two creatures step at one free cell, one after the other, the first
/// gets the cell and the second stays where it is.
pub proof fn lemma_first_mover_wins(
    m: MapModel,
    a: usize,
    ra: RelativeDir,
    b: usize,
    rb: RelativeDir,
)
    requires
        m.wf(),
        m.has(a),
        m.has(b),
        a != b,
        wrap(m.tiles, m.creatures[a as int].target(ra)) == wrap(
            m.tiles,
            m.creatures[b as int].target(rb),
        ),
        m.tile(m.creatures[a as int].target(ra)).passable(),
        m.occupant(m.creatures[a as int].target(ra)) is None,
    ensures
        ({
            let cell = wrap(m.tiles, m.creatures[a as int].target(ra));
            let after = m.stepped(a, ra).stepped(b, rb);
            &&& after.wf()
            &&& after.creatures[a as int].pos == cell
            &&& after.creatures[b as int].pos == m.creatures[b as int].pos
            &&& after.occupant(cell) == Some(a)
            &&& after.occupant(m.creatures[b as int].pos) == Some(b)
        }),
{
    let ca = m.creatures[a as int];
    let cb = m.creatures[b as int];
    let first = m.stepped(a, ra);
    lemma_wrap_in_grid(m.occupancy, ca.pos);
    lemma_wrap_in_grid(first.occupancy, wrap(m.tiles, ca.target(ra)));
    lemma_wrap_in_grid(first.occupancy, cb.pos);
}

/// On a well-formed map two creatures never stand on one cell, and a cell
/// records a handle exactly if the creature of that handle stands on it.
pub proof fn lemma_one_creature_per_cell(m: MapModel, a: usize, b: usize, p: Hex)
    requires
        m.wf(),
        m.has(a),
        m.has(b),
    ensures
        a != b ==> m.creatures[a as int].pos != m.creatures[b as int].pos,
        wrap(m.tiles, m.creatures[a as int].pos) == m.creatures[a as int].pos,
        m.occupant(p) == Some(a) <==> m.creatures[a as int].pos == wrap(m.tiles, p),
{
    lemma_wrap_in_grid(m.tiles, m.creatures[a as int].pos);
}

} // verus!

