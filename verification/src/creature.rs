//! A creature: where it stands and faces, the action it is busy with, and
//! what it sees and remembers of the map.
use crate::action::Action;
use crate::grid::{
    cells, filled_grid, grid_height, grid_ok, grid_width, in_grid, lemma_with_cell_shape,
    lemma_wrap_in_grid, uniform, with_cell, wrap, TileGrid,
};
use crate::hex::{modulo, Direction, Hex, Position, RelativeDir};
use crate::sight::{candidates, fan, lemma_neighbor_wraps, lemma_reach_wraps, next_main, reach};
use vstd::prelude::*;

verus! {

/// How many cells deep a creature sees, itself included, and how far the
/// rectangle drawn around it reaches.
pub const PLAYER_VIEW: u32 = 10;

/// What one tick of the scheduler found a creature doing.
#[derive(Clone, Copy, PartialEq, Eq, Structural, Debug)]
pub enum Phase {
    /// The chosen action is still being wound up.
    Winding,
    /// The wind-up is over: the action takes effect on this tick.
    Resolved(Action),
    /// The creature recovers from its last action.
    Cooling,
    /// Nothing is pending: the creature is ready to choose.
    Idle,
}

/// The mathematical model of a creature.
pub struct CreatureModel {
    pub pos: Hex,
    pub dir: Direction,
    pub action: Option<Action>,
    pub pre_ticks: nat,
    pub post_ticks: nat,
    pub width: int,
    pub height: int,
    pub visible: Set<Hex>,
    pub known: Set<Hex>,
}

impl CreatureModel {
    /// The creature stands on a cell of its map and sees and knows only
    /// cells of it.
    pub open spec fn wf(self) -> bool {
        &&& 0 < self.width <= i64::MAX
        &&& 0 < self.height <= i64::MAX
        &&& 0 <= self.pos.x < self.width
        &&& 0 <= self.pos.y < self.height
        &&& self.pre_ticks <= u32::MAX
        &&& self.post_ticks <= u32::MAX
        &&& forall|p: Hex| #[trigger]
            self.visible.contains(p) ==> 0 <= p.x < self.width && 0 <= p.y < self.height
        &&& forall|p: Hex| #[trigger]
            self.known.contains(p) ==> 0 <= p.x < self.width && 0 <= p.y < self.height
    }

    /// A creature that has just been put on the map: idle, seeing and
    /// knowing nothing.
    pub open spec fn fresh(pos: Hex, dir: Direction, width: int, height: int) -> CreatureModel {
        CreatureModel {
            pos,
            dir,
            action: None,
            pre_ticks: 0,
            post_ticks: 0,
            width,
            height,
            visible: Set::empty(),
            known: Set::empty(),
        }
    }

    /// The cell of the creature's map that `p` falls on.
    pub open spec fn wrapped(self, p: Hex) -> Hex {
        p.wrapped(self.width, self.height)
    }

    /// What the next tick will find the creature doing.
    pub open spec fn phase(self) -> Phase {
        if self.pre_ticks > 0 {
            Phase::Winding
        } else if let Some(a) = self.action {
            Phase::Resolved(a)
        } else if self.post_ticks > 0 {
            Phase::Cooling
        } else {
            Phase::Idle
        }
    }

    pub open spec fn idle(self) -> bool {
        self.phase() == Phase::Idle
    }

    /// The scheduler's part of one tick: a running timer counts down, a
    /// wound-up action leaves the slot and starts its cool-down, and an idle
    /// creature stays as it is.
    pub open spec fn ticked(self) -> CreatureModel {
        match self.phase() {
            Phase::Winding => CreatureModel { pre_ticks: (self.pre_ticks - 1) as nat, ..self },
            Phase::Resolved(a) => CreatureModel {
                action: None,
                post_ticks: a.spec_post_ticks(),
                ..self
            },
            Phase::Cooling => CreatureModel { post_ticks: (self.post_ticks - 1) as nat, ..self },
            Phase::Idle => self,
        }
    }

    /// The creature after `n` ticks during which it is never asked to choose.
    pub open spec fn ticked_n(self, n: nat) -> CreatureModel
        decreases n,
    {
        if n == 0 {
            self
        } else {
            self.ticked().ticked_n((n - 1) as nat)
        }
    }

    /// The creature once `a` has been chosen for it.
    pub open spec fn begun(self, a: Action) -> CreatureModel {
        CreatureModel { action: Some(a), pre_ticks: a.spec_pre_ticks(), ..self }
    }

    /// The cell next to the creature in the direction `rd` of its facing.
    pub open spec fn target(self, rd: RelativeDir) -> Hex {
        self.pos.neighbor(self.dir.spec_turn(rd))
    }

    pub open spec fn turned(self, rd: RelativeDir) -> CreatureModel {
        CreatureModel { dir: self.dir.spec_turn(rd), ..self }
    }

    pub open spec fn moved_to(self, pos: Hex) -> CreatureModel {
        CreatureModel { pos, ..self }
    }

    /// The creature with `p`, wrapped, added to what it knows.
    pub open spec fn learning(self, p: Hex) -> CreatureModel {
        CreatureModel { known: self.known.insert(self.wrapped(p)), ..self }
    }

    /// The creature with `p`, wrapped, added to what it sees.
    pub open spec fn noticing(self, p: Hex) -> CreatureModel {
        CreatureModel { visible: self.visible.insert(self.wrapped(p)), ..self }
    }

    /// The creature with the cells `s` added to what it sees and knows.
    pub open spec fn seeing(self, s: Set<Hex>) -> CreatureModel {
        CreatureModel { visible: self.visible + s, known: self.known + s, ..self }
    }

    /// The creature after a fresh look that showed the cells `s`: it sees
    /// exactly `s` and knows `s` beside all it knew.
    pub open spec fn refreshed(self, s: Set<Hex>) -> CreatureModel {
        CreatureModel { visible: s, known: self.known + s, ..self }
    }

    /// What the creature sees from where it stands on the terrain `g`.
    pub open spec fn sight(self, g: Seq<Seq<crate::tile::Tile>>) -> Set<Hex> {
        reach(g, self.pos, self.dir, None, None, PLAYER_VIEW as nat)
    }
}

/// The cells of a grid of flags that are set.
pub open spec fn marked(g: Seq<Seq<bool>>) -> Set<Hex> {
    Set::new(|p: Hex| in_grid(g, p) && g[p.x][p.y])
}

/// Setting a flag adds its cell to the marked ones.
proof fn lemma_marked_with_cell(g: Seq<Seq<bool>>, p: Hex)
    requires
        grid_ok(g),
    ensures
        marked(with_cell(g, p, true)) == marked(g).insert(wrap(g, p)),
{
    lemma_wrap_in_grid(g, p);
    lemma_with_cell_shape(g, p, true);
    assert(marked(with_cell(g, p, true)) =~= marked(g).insert(wrap(g, p)));
}

/// A grid without a set flag marks no cell.
proof fn lemma_marked_uniform_false(width: int, height: int)
    ensures
        marked(uniform(width, height, false)) == Set::<Hex>::empty(),
{
    assert(marked(uniform(width, height, false)) =~= Set::<Hex>::empty());
}

/// A creature of the map.
pub struct Creature {
    pos: Position,
    dir: Direction,
    action: Option<Action>,
    pre_action_ticks: u32,
    post_action_ticks: u32,
    map_visible: Vec<Vec<bool>>,
    map_known: Vec<Vec<bool>>,
    map_width: usize,
    map_height: usize,
}

impl View for Creature {
    type V = CreatureModel;

    closed spec fn view(&self) -> CreatureModel {
        CreatureModel {
            pos: self.pos@,
            dir: self.dir,
            action: self.action,
            pre_ticks: self.pre_action_ticks as nat,
            post_ticks: self.post_action_ticks as nat,
            width: self.map_width as int,
            height: self.map_height as int,
            visible: marked(cells(self.map_visible@)),
            known: marked(cells(self.map_known@)),
        }
    }
}

impl Creature {
    /// The two grids of flags have the sides that the creature records.
    pub closed spec fn consistent(&self) -> bool {
        &&& grid_ok(cells(self.map_visible@))
        &&& grid_ok(cells(self.map_known@))
        &&& grid_width(cells(self.map_visible@)) == self.map_width
        &&& grid_height(cells(self.map_visible@)) == self.map_height
        &&& grid_width(cells(self.map_known@)) == self.map_width
        &&& grid_height(cells(self.map_known@)) == self.map_height
    }

    pub open spec fn wf(&self) -> bool {
        self.consistent() && self@.wf()
    }

    /// A creature for the map with the terrain `terrain`, standing on the
    /// cell that `position` falls on.
    pub fn new(terrain: &TileGrid, position: &Position, direction: Direction) -> (c: Creature)
        requires
            terrain.wf(),
        ensures
            c.wf(),
            c@ == CreatureModel::fresh(
                wrap(terrain@, position@),
                direction,
                grid_width(terrain@),
                grid_height(terrain@),
            ),
    {
        let width = terrain.width();
        let height = terrain.height();
        let pos = terrain.wrap_position(position);
        proof {
            lemma_marked_uniform_false(width as int, height as int);
        }
        Creature {
            pos,
            dir: direction,
            action: None,
            pre_action_ticks: 0,
            post_action_ticks: 0,
            map_visible: filled_grid(width, height, false),
            map_known: filled_grid(width, height, false),
            map_width: width,
            map_height: height,
        }
    }

    fn wrap_position(&self, pos: &Position) -> (r: Position)
        requires
            self.wf(),
        ensures
            r@ == self@.wrapped(pos@),
            0 <= r.x < self.map_width,
            0 <= r.y < self.map_height,
            r@ == wrap(cells(self.map_visible@), pos@),
            r@ == wrap(cells(self.map_known@), pos@),
    {
        Position {
            x: modulo(pos.x, self.map_width as i64),
            y: modulo(pos.y, self.map_height as i64),
        }
    }

    /// The scheduler's part of one tick. The caller applies the effect of a
    /// resolved action and lets an idle creature choose.
    pub fn tick(&mut self) -> (phase: Phase)
        requires
            old(self).wf(),
        ensures
            final(self).wf(),
            phase == old(self)@.phase(),
            final(self)@ == old(self)@.ticked(),
    {
        if self.pre_action_ticks > 0 {
            self.pre_action_ticks = self.pre_action_ticks - 1;
            Phase::Winding
        } else {
            match self.action {
                Some(action) => {
                    self.action = None;
                    self.post_action_ticks = action.post_ticks();
                    Phase::Resolved(action)
                },
                None => {
                    if self.post_action_ticks > 0 {
                        self.post_action_ticks = self.post_action_ticks - 1;
                        Phase::Cooling
                    } else {
                        Phase::Idle
                    }
                },
            }
        }
    }

    /// Takes `action` as the pending action of a creature that is ready to
    /// choose, and starts the wind-up. A creature that is busy cannot be
    /// given another action: what has begun always runs its course.
    pub fn begin(&mut self, action: Action)
        requires
            old(self).wf(),
            old(self)@.idle(),
        ensures
            final(self).wf(),
            final(self)@ == old(self)@.begun(action),
    {
        self.action = Some(action);
        self.pre_action_ticks = action.pre_ticks();
    }

    pub fn is_idle(&self) -> (r: bool)
        requires
            self.wf(),
        ensures
            r == self@.idle(),
    {
        self.pre_action_ticks == 0 && self.action.is_none() && self.post_action_ticks == 0
    }

    /// The action that waits for its wind-up to end, if any.
    pub fn pending(&self) -> (r: Option<Action>)
        ensures
            r == self@.action,
    {
        self.action
    }

    /// Rotates the creature's facing.
    pub fn turn(&mut self, rd: RelativeDir)
        requires
            old(self).wf(),
        ensures
            final(self).wf(),
            final(self)@ == old(self)@.turned(rd),
    {
        self.dir.turn_mut(rd);
    }

    /// Receives a hit. What a hit does to a creature is not decided here.
    pub fn hit(&mut self)
        ensures
            *final(self) == *old(self),
    {
    }

    /// Moves the creature's own record of where it stands.
    pub(crate) fn relocate(&mut self, pos: Position)
        requires
            old(self).wf(),
            0 <= pos.x < old(self)@.width,
            0 <= pos.y < old(self)@.height,
        ensures
            final(self).wf(),
            final(self)@ == old(self)@.moved_to(pos@),
    {
        self.pos = pos;
    }

    pub fn mark_visible(&mut self, pos: &Position)
        requires
            old(self).wf(),
        ensures
            final(self).wf(),
            final(self)@ == old(self)@.noticing(pos@),
    {
        let p = self.wrap_position(pos);
        proof {
            lemma_marked_with_cell(cells(self.map_visible@), pos@);
            lemma_with_cell_shape(cells(self.map_visible@), pos@, true);
        }
        self.map_visible[p.x as usize][p.y as usize] = true;
        proof {
            assert(cells(self.map_visible@) =~~= with_cell(
                cells(old(self).map_visible@),
                pos@,
                true,
            ));
        }
    }

    pub fn mark_known(&mut self, pos: &Position)
        requires
            old(self).wf(),
        ensures
            final(self).wf(),
            final(self)@ == old(self)@.learning(pos@),
    {
        let p = self.wrap_position(pos);
        proof {
            lemma_marked_with_cell(cells(self.map_known@), pos@);
            lemma_with_cell_shape(cells(self.map_known@), pos@, true);
        }
        self.map_known[p.x as usize][p.y as usize] = true;
        proof {
            assert(cells(self.map_known@) =~~= with_cell(cells(old(self).map_known@), pos@, true));
        }
    }

    /// Whether the cell that `pos` falls on is in sight.
    pub fn sees(&self, pos: &Position) -> (r: bool)
        requires
            self.wf(),
        ensures
            r == self@.visible.contains(self@.wrapped(pos@)),
    {
        let p = self.wrap_position(pos);
        proof {
            assert(cells(self.map_visible@)[p.x as int] == self.map_visible@[p.x as int]@);
        }
        self.map_visible[p.x as usize][p.y as usize]
    }

    /// Whether the cell that `pos` falls on has ever been seen or bumped into.
    pub fn knows(&self, pos: &Position) -> (r: bool)
        requires
            self.wf(),
        ensures
            r == self@.known.contains(self@.wrapped(pos@)),
    {
        let p = self.wrap_position(pos);
        proof {
            assert(cells(self.map_known@)[p.x as int] == self.map_known@[p.x as int]@);
        }
        self.map_known[p.x as usize][p.y as usize]
    }

    pub fn position(&self) -> (p: Position)
        ensures
            p@ == self@.pos,
    {
        self.pos
    }

    pub fn direction(&self) -> (d: Direction)
        ensures
            d == self@.dir,
    {
        self.dir
    }

    /// The offsets, relative to a creature that faces up, of the rectangle
    /// that is drawn around it: the sight depth to the front and to each
    /// side, two rows behind.
    pub fn each_in_view_rect(&self) -> (offsets: Vec<Position>)
        ensures
            offsets.len() == (PLAYER_VIEW + 3) * (2 * PLAYER_VIEW + 1) == 273,
            forall|k: int|
                0 <= k < offsets.len() ==> (#[trigger] offsets[k])@ == (Hex { x: 0, y: 0 }).around_cell(
                    PLAYER_VIEW as int,
                    PLAYER_VIEW as int,
                    2 * PLAYER_VIEW + 1,
                    k,
                ),
    {
        let origin = Position { x: 0, y: 0 };
        origin.each_around(PLAYER_VIEW as i64, 2, PLAYER_VIEW as i64, PLAYER_VIEW as i64)
    }

    /// One step of the sight sweep: marks the cell that `pos` falls on and,
    /// where the terrain lets sight through, goes on into the directions
    /// that the way here allows, one level less deep.
    pub fn do_view(
        &mut self,
        terrain: &TileGrid,
        pos: &Position,
        main_dir: Direction,
        dir: Option<Direction>,
        pdir: Option<Direction>,
        depth: u32,
    )
        requires
            old(self).wf(),
            terrain.wf(),
            old(self)@.width == grid_width(terrain@),
            old(self)@.height == grid_height(terrain@),
        ensures
            final(self).wf(),
            final(self)@ == old(self)@.seeing(
                reach(terrain@, pos@, main_dir, dir, pdir, depth as nat),
            ),
        decreases depth,
    {
        if depth == 0 {
            assert(self@.seeing(Set::<Hex>::empty()) == self@) by {
                assert(self@.visible + Set::<Hex>::empty() =~= self@.visible);
                assert(self@.known + Set::<Hex>::empty() =~= self@.known);
            }
            return ;
        }
        let ghost g = terrain@;
        let ghost before = self@;
        let p = terrain.wrap_position(pos);
        self.mark_visible(&p);
        self.mark_known(&p);
        proof {
            lemma_wrap_in_grid(g, pos@);
            assert(self@.visible =~= before.visible + set![p@]);
            assert(self@.known =~= before.known + set![p@]);
        }
        let neighbors: Vec<Direction> = match (dir, pdir) {
            (Some(d), Some(pd)) => {
                if d == pd {
                    vec![d]
                } else {
                    vec![d, pd]
                }
            },
            (Some(d), None) => {
                if main_dir == d {
                    vec![d, d.turn(RelativeDir::LEFT), d.turn(RelativeDir::RIGHT)]
                } else {
                    vec![d, main_dir]
                }
            },
            _ => {
                vec![main_dir, main_dir.turn(RelativeDir::LEFT), main_dir.turn(RelativeDir::RIGHT)]
            },
        };
        assert(neighbors@ =~= candidates(main_dir, dir, pdir));
        if terrain.at(&p).can_see_through() {
            let ghost c = neighbors@;
            let mut i: usize = 0;
            assert(self@ == before.seeing(
                set![p@] + fan(g, pos@, main_dir, dir, c.take(0), (depth - 1) as nat),
            )) by {
                assert(set![p@] + Set::<Hex>::empty() =~= set![p@]);
            }
            while i < neighbors.len()
                invariant
                    i <= neighbors.len(),
                    c == neighbors@,
                    g == terrain@,
                    depth > 0,
                    self.wf(),
                    terrain.wf(),
                    self@.width == grid_width(g),
                    self@.height == grid_height(g),
                    p@ == wrap(g, pos@),
                    in_grid(g, p@),
                    self@ == before.seeing(
                        set![p@] + fan(g, pos@, main_dir, dir, c.take(i as int), (depth - 1) as nat),
                    ),
                decreases neighbors.len() - i,
            {
                let d = neighbors[i];
                let n = p.neighbor(d);
                let ghost step = reach(
                    g,
                    pos@.neighbor(d),
                    next_main(main_dir, dir, d),
                    Some(d),
                    dir,
                    (depth - 1) as nat,
                );
                proof {
                    lemma_wrap_in_grid(g, pos@);
                    lemma_neighbor_wraps(g, pos@, p@, d);
                    lemma_reach_wraps(
                        g,
                        n@,
                        pos@.neighbor(d),
                        next_main(main_dir, dir, d),
                        Some(d),
                        dir,
                        (depth - 1) as nat,
                    );
                }
                match dir {
                    Some(_) => {
                        self.do_view(terrain, &n, d, Some(d), dir, depth - 1);
                    },
                    None => {
                        self.do_view(terrain, &n, main_dir, Some(d), dir, depth - 1);
                    },
                }
                proof {
                    let done = fan(g, pos@, main_dir, dir, c.take(i as int), (depth - 1) as nat);
                    let more = fan(
                        g,
                        pos@,
                        main_dir,
                        dir,
                        c.take(i as int + 1),
                        (depth - 1) as nat,
                    );
                    assert(c.take(i as int + 1).drop_last() =~= c.take(i as int));
                    assert(before.visible + (set![p@] + done) + step =~= before.visible + (set![p@]
                        + more));
                    assert(before.known + (set![p@] + done) + step =~= before.known + (set![p@]
                        + more));
                }
                i = i + 1;
            }
            proof {
                assert(c.take(c.len() as int) =~= c);
            }
        }
    }

    /// Looks around afresh: what is seen is rebuilt from nothing, what is
    /// known only grows.
    pub fn update_visibility(&mut self, terrain: &TileGrid)
        requires
            old(self).wf(),
            terrain.wf(),
            old(self)@.width == grid_width(terrain@),
            old(self)@.height == grid_height(terrain@),
        ensures
            final(self).wf(),
            final(self)@ == old(self)@.refreshed(old(self)@.sight(terrain@)),
            forall|p: Hex| old(self)@.known.contains(p) ==> final(self)@.known.contains(p),
    {
        self.map_visible = filled_grid(self.map_width, self.map_height, false);
        proof {
            lemma_marked_uniform_false(self.map_width as int, self.map_height as int);
        }
        let position = self.pos;
        let direction = self.dir;
        self.do_view(terrain, &position, direction, None, None, PLAYER_VIEW);
        proof {
            let s = old(self)@.sight(terrain@);
            assert(Set::<Hex>::empty() + s =~= s);
        }
    }
}

/// A creature remembers: a fresh look never removes a cell from what it
/// knows, whatever it shows.
pub proof fn lemma_known_is_monotone(c: CreatureModel, shown: Set<Hex>, p: Hex)
    requires
        c.known.contains(p),
    ensures
        c.refreshed(shown).known.contains(p),
        c.seeing(shown).known.contains(p),
{
}

/// A creature that only cools down reaches idleness when its timer runs
/// out, and not before.
proof fn lemma_cooling_ticks(c: CreatureModel, k: nat)
    requires
        c.action is None,
        c.pre_ticks == 0,
        k <= c.post_ticks,
    ensures
        c.ticked_n(k) == (CreatureModel { post_ticks: (c.post_ticks - k) as nat, ..c }),
        c.ticked_n(k).idle() <==> k == c.post_ticks,
    decreases k,
{
    if k > 0 {
        lemma_cooling_ticks(c.ticked(), (k - 1) as nat);
    }
}

/// From the tick on which an action is chosen, the creature winds up for
/// `pre_ticks` ticks, the action takes effect on the tick after those, and
/// the creature then cools down for `post_ticks` ticks: it is ready to
/// choose again after exactly `pre_ticks + post_ticks` ticks of waiting and
/// the one tick of the effect, and on no tick before.
pub proof fn lemma_action_latency(c: CreatureModel, a: Action, k: nat)
    requires
        c.idle(),
    ensures
        c.begun(a).ticked_n(a.spec_pre_ticks()).phase() == Phase::Resolved(a),
        c.begun(a).ticked_n(a.spec_pre_ticks() + a.spec_post_ticks() + 1) == c,
        k <= a.spec_pre_ticks() + a.spec_post_ticks() ==> !c.begun(a).ticked_n(k).idle(),
{
    let s = c.begun(a);
    let pre = a.spec_pre_ticks();
    let post = a.spec_post_ticks();
    lemma_winding_ticks(s, pre);
    let r = s.ticked_n(pre);
    lemma_ticked_n_splits(s, pre, post + 1);
    lemma_cooling_ticks(r.ticked(), post);
    if k <= pre + post {
        if k <= pre {
            lemma_winding_ticks(s, k);
        } else {
            lemma_ticked_n_splits(s, pre, (k - pre) as nat);
            lemma_cooling_ticks(r.ticked(), (k - pre - 1) as nat);
        }
    }
}

/// While it winds up, a creature only counts its wind-up down.
proof fn lemma_winding_ticks(c: CreatureModel, k: nat)
    requires
        k <= c.pre_ticks,
    ensures
        c.ticked_n(k) == (CreatureModel { pre_ticks: (c.pre_ticks - k) as nat, ..c }),
        k < c.pre_ticks ==> !c.ticked_n(k).idle(),
    decreases k,
{
    if k > 0 {
        lemma_winding_ticks(c.ticked(), (k - 1) as nat);
    }
}

/// Ticking `m + n` times is ticking `m` times and then `n` times.
proof fn lemma_ticked_n_splits(c: CreatureModel, m: nat, n: nat)
    ensures
        c.ticked_n(m + n) == c.ticked_n(m).ticked_n(n),
    decreases m,
{
    if m > 0 {
        lemma_ticked_n_splits(c.ticked(), (m - 1) as nat, n);
    }
}

} // verus!
