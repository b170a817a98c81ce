//! What the sight sweep reaches: a depth-bounded walk over the terrain that
//! fans out from the viewer's facing and stops at opaque cells.
use crate::grid::{cell_at, grid_height, grid_ok, grid_width, wrap};
use crate::hex::{Direction, Hex};
use crate::tile::Tile;
use vstd::arithmetic::div_mod::lemma_add_mod_noop;
use vstd::prelude::*;

verus! {

/// The directions in which the sweep goes on from a cell. At the viewer's
/// own cell, and at the cell straight ahead of it, that is the facing and
/// the two directions beside it. Elsewhere it is the direction `dir` that
/// led to the cell, together with the direction that led to the cell before
/// it (or, one step from the viewer, the facing) where the two differ.
pub open spec fn candidates(
    main_dir: Direction,
    dir: Option<Direction>,
    pdir: Option<Direction>,
) -> Seq<Direction> {
    match (dir, pdir) {
        (Some(d), Some(pd)) => if d == pd {
            seq![d]
        } else {
            seq![d, pd]
        },
        (Some(d), None) => if main_dir == d {
            seq![d, d.spec_left(), d.spec_right()]
        } else {
            seq![d, main_dir]
        },
        (None, _) => seq![main_dir, main_dir.spec_left(), main_dir.spec_right()],
    }
}

/// The facing that is handed on with a step into direction `c`: the step's
/// own direction once a direction has been taken, the viewer's facing on the
/// first step.
pub open spec fn next_main(main_dir: Direction, dir: Option<Direction>, c: Direction) -> Direction {
    if dir is Some {
        c
    } else {
        main_dir
    }
}

/// The cells of the torus `g` that a sweep of depth `depth` marks when it
/// stands on `pos`, having come by `dir` to it and by `pdir` to the cell
/// before. A sweep of depth nought marks nothing; otherwise it marks its own
/// cell and, if that cell lets sight through, all that the sweeps of one
/// depth less mark from the neighbours in the candidate directions.
pub open spec fn reach(
    g: Seq<Seq<Tile>>,
    pos: Hex,
    main_dir: Direction,
    dir: Option<Direction>,
    pdir: Option<Direction>,
    depth: nat,
) -> Set<Hex>
    decreases depth, 0nat,
{
    if depth == 0 {
        Set::empty()
    } else if !cell_at(g, pos).transparent() {
        set![wrap(g, pos)]
    } else {
        set![wrap(g, pos)] + fan(
            g,
            pos,
            main_dir,
            dir,
            candidates(main_dir, dir, pdir),
            (depth - 1) as nat,
        )
    }
}

/// What sweeps of depth `depth` mark from the neighbours of `pos` in the
/// directions `c`, taken together.
pub open spec fn fan(
    g: Seq<Seq<Tile>>,
    pos: Hex,
    main_dir: Direction,
    dir: Option<Direction>,
    c: Seq<Direction>,
    depth: nat,
) -> Set<Hex>
    decreases depth, 1 + c.len(),
{
    if c.len() == 0 {
        Set::empty()
    } else {
        fan(g, pos, main_dir, dir, c.drop_last(), depth) + reach(
            g,
            pos.neighbor(c.last()),
            next_main(main_dir, dir, c.last()),
            Some(c.last()),
            dir,
            depth,
        )
    }
}

/// Two cells that fall on the same cell of the torus have neighbours that do
/// so too.
pub proof fn lemma_neighbor_wraps(g: Seq<Seq<Tile>>, a: Hex, b: Hex, d: Direction)
    requires
        grid_ok(g),
        wrap(g, a) == wrap(g, b),
    ensures
        wrap(g, a.neighbor(d)) == wrap(g, b.neighbor(d)),
{
    let w = grid_width(g);
    let h = grid_height(g);
    let dx = a.neighbor(d).x - a.x;
    let dy = a.neighbor(d).y - a.y;
    lemma_add_mod_noop(a.x, dx, w);
    lemma_add_mod_noop(b.x, dx, w);
    lemma_add_mod_noop(a.y, dy, h);
    lemma_add_mod_noop(b.y, dy, h);
}

/// The sweep depends on its starting cell only through the cell of the torus
/// that it falls on.
pub proof fn lemma_reach_wraps(
    g: Seq<Seq<Tile>>,
    a: Hex,
    b: Hex,
    main_dir: Direction,
    dir: Option<Direction>,
    pdir: Option<Direction>,
    depth: nat,
)
    requires
        grid_ok(g),
        wrap(g, a) == wrap(g, b),
    ensures
        reach(g, a, main_dir, dir, pdir, depth) == reach(g, b, main_dir, dir, pdir, depth),
    decreases depth, 0nat,
{
    if depth > 0 {
        lemma_fan_wraps(g, a, b, main_dir, dir, candidates(main_dir, dir, pdir), (depth - 1) as nat);
    }
}

/// The same for a fan of sweeps.
pub proof fn lemma_fan_wraps(
    g: Seq<Seq<Tile>>,
    a: Hex,
    b: Hex,
    main_dir: Direction,
    dir: Option<Direction>,
    c: Seq<Direction>,
    depth: nat,
)
    requires
        grid_ok(g),
        wrap(g, a) == wrap(g, b),
    ensures
        fan(g, a, main_dir, dir, c, depth) == fan(g, b, main_dir, dir, c, depth),
    decreases depth, 1 + c.len(),
{
    if c.len() > 0 {
        lemma_fan_wraps(g, a, b, main_dir, dir, c.drop_last(), depth);
        lemma_neighbor_wraps(g, a, b, c.last());
        lemma_reach_wraps(
            g,
            a.neighbor(c.last()),
            b.neighbor(c.last()),
            next_main(main_dir, dir, c.last()),
            Some(c.last()),
            dir,
            depth,
        );
    }
}

/// Every cell that a sweep marks is a cell of the torus.
pub proof fn lemma_reach_in_grid(
    g: Seq<Seq<Tile>>,
    pos: Hex,
    main_dir: Direction,
    dir: Option<Direction>,
    pdir: Option<Direction>,
    depth: nat,
    p: Hex,
)
    requires
        grid_ok(g),
        reach(g, pos, main_dir, dir, pdir, depth).contains(p),
    ensures
        crate::grid::in_grid(g, p),
    decreases depth, 0nat,
{
    if depth > 0 && cell_at(g, pos).transparent() && p != wrap(g, pos) {
        lemma_fan_in_grid(
            g,
            pos,
            main_dir,
            dir,
            candidates(main_dir, dir, pdir),
            (depth - 1) as nat,
            p,
        );
    }
}

/// The same for a fan of sweeps.
pub proof fn lemma_fan_in_grid(
    g: Seq<Seq<Tile>>,
    pos: Hex,
    main_dir: Direction,
    dir: Option<Direction>,
    c: Seq<Direction>,
    depth: nat,
    p: Hex,
)
    requires
        grid_ok(g),
        fan(g, pos, main_dir, dir, c, depth).contains(p),
    ensures
        crate::grid::in_grid(g, p),
    decreases depth, 1 + c.len(),
{
    if c.len() > 0 {
        if fan(g, pos, main_dir, dir, c.drop_last(), depth).contains(p) {
            lemma_fan_in_grid(g, pos, main_dir, dir, c.drop_last(), depth, p);
        } else {
            lemma_reach_in_grid(
                g,
                pos.neighbor(c.last()),
                next_main(main_dir, dir, c.last()),
                Some(c.last()),
                dir,
                depth,
                p,
            );
        }
    }
}

/// The cell `k` steps from `pos` in the direction `d`.
pub open spec fn ahead(pos: Hex, d: Direction, k: nat) -> Hex
    decreases k,
{
    if k == 0 {
        pos
    } else {
        ahead(pos.neighbor(d), d, (k - 1) as nat)
    }
}

/// A fan holds all that the sweep into each of its directions marks.
pub proof fn lemma_fan_covers(
    g: Seq<Seq<Tile>>,
    pos: Hex,
    main_dir: Direction,
    dir: Option<Direction>,
    c: Seq<Direction>,
    depth: nat,
    i: int,
    p: Hex,
)
    requires
        0 <= i < c.len(),
        reach(g, pos.neighbor(c[i]), next_main(main_dir, dir, c[i]), Some(c[i]), dir, depth).contains(
            p,
        ),
    ensures
        fan(g, pos, main_dir, dir, c, depth).contains(p),
    decreases c.len(),
{
    if i < c.len() - 1 {
        lemma_fan_covers(g, pos, main_dir, dir, c.drop_last(), depth, i, p);
    }
}

/// A sweep that runs straight on marks the cell `k` steps on, for every `k`
/// below its depth, as long as no opaque cell lies before that one.
pub proof fn lemma_straight_sweep(g: Seq<Seq<Tile>>, pos: Hex, d: Direction, depth: nat, k: nat)
    requires
        k < depth,
        forall|j: nat| j < k ==> cell_at(g, #[trigger] ahead(pos, d, j)).transparent(),
    ensures
        reach(g, pos, d, Some(d), Some(d), depth).contains(wrap(g, ahead(pos, d, k))),
    decreases k,
{
    if k > 0 {
        let next = pos.neighbor(d);
        assert(ahead(pos, d, 0) == pos);
        assert forall|j: nat| j < k - 1 implies cell_at(
            g,
            #[trigger] ahead(next, d, j),
        ).transparent() by {
            assert(ahead(pos, d, j + 1) == ahead(next, d, j));
        }
        lemma_straight_sweep(g, next, d, (depth - 1) as nat, (k - 1) as nat);
        lemma_fan_covers(
            g,
            pos,
            d,
            Some(d),
            candidates(d, Some(d), Some(d)),
            (depth - 1) as nat,
            0,
            wrap(g, ahead(pos, d, k)),
        );
    }
}

/// Looking into the direction `d` from `pos`, one sees one's own cell and,
/// for every `k` below the depth of sight, the cell `k` steps straight ahead,
/// as long as no opaque cell lies before it. An opaque cell is itself seen.
pub proof fn lemma_sees_straight_ahead(g: Seq<Seq<Tile>>, pos: Hex, d: Direction, depth: nat, k: nat)
    requires
        k < depth,
        forall|j: nat| j < k ==> cell_at(g, #[trigger] ahead(pos, d, j)).transparent(),
    ensures
        reach(g, pos, d, None, None, depth).contains(wrap(g, ahead(pos, d, k))),
{
    if k > 0 {
        let first = pos.neighbor(d);
        let target = wrap(g, ahead(pos, d, k));
        assert(ahead(pos, d, 0) == pos);
        assert(ahead(pos, d, 1) == ahead(first, d, 0));
        assert(ahead(first, d, 0) == first);
        if k > 1 {
            let second = first.neighbor(d);
            assert forall|j: nat| j < k - 2 implies cell_at(
                g,
                #[trigger] ahead(second, d, j),
            ).transparent() by {
                assert(ahead(first, d, j + 1) == ahead(second, d, j));
                assert(ahead(pos, d, j + 2) == ahead(first, d, j + 1));
            }
            assert(ahead(first, d, (k - 1) as nat) == ahead(second, d, (k - 2) as nat));
            lemma_straight_sweep(g, second, d, (depth - 2) as nat, (k - 2) as nat);
            lemma_fan_covers(
                g,
                first,
                d,
                Some(d),
                candidates(d, Some(d), None),
                (depth - 2) as nat,
                0,
                target,
            );
        }
        assert(reach(g, first, d, Some(d), None, (depth - 1) as nat).contains(target));
        lemma_fan_covers(
            g,
            pos,
            d,
            None,
            candidates(d, None, None),
            (depth - 1) as nat,
            0,
            target,
        );
    }
}

} // verus!
