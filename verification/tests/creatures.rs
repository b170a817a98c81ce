use rustyhex::action::Action;
use rustyhex::creature::{Creature, Phase, PLAYER_VIEW};
use rustyhex::grid::TileGrid;
use rustyhex::hex::{Direction, Position, RelativeDir};
use rustyhex::tile::Tile;

fn floor(width: usize, height: usize) -> TileGrid {
    TileGrid::filled(width, height, Tile::FLOOR).unwrap()
}

#[test]
fn new_creature_is_idle_and_blind() {
    let terrain = floor(8, 6);
    let c = Creature::new(&terrain, &Position { x: 3, y: 2 }, Direction::SE);
    assert_eq!(c.position(), Position { x: 3, y: 2 });
    assert_eq!(c.direction(), Direction::SE);
    assert!(c.is_idle());
    assert_eq!(c.pending(), None);
    for x in 0..8 {
        for y in 0..6 {
            assert!(!c.sees(&Position { x, y }));
            assert!(!c.knows(&Position { x, y }));
        }
    }
}

#[test]
fn new_creature_stands_on_the_wrapped_cell() {
    let terrain = floor(8, 6);
    let c = Creature::new(&terrain, &Position { x: -1, y: 7 }, Direction::N);
    assert_eq!(c.position(), Position { x: 7, y: 1 });
}

#[test]
fn marks_wrap_and_touch_one_cell() {
    let terrain = floor(5, 4);
    let mut c = Creature::new(&terrain, &Position { x: 0, y: 0 }, Direction::N);
    c.mark_visible(&Position { x: 6, y: -1 });
    assert!(c.sees(&Position { x: 1, y: 3 }));
    assert!(c.sees(&Position { x: -4, y: 7 }));
    assert!(!c.knows(&Position { x: 1, y: 3 }));
    c.mark_known(&Position { x: 2, y: 2 });
    assert!(c.knows(&Position { x: 2, y: 2 }));
    assert!(!c.sees(&Position { x: 2, y: 2 }));
    let mut seen = 0;
    let mut known = 0;
    for x in 0..5 {
        for y in 0..4 {
            if c.sees(&Position { x, y }) {
                seen += 1;
            }
            if c.knows(&Position { x, y }) {
                known += 1;
            }
        }
    }
    assert_eq!((seen, known), (1, 1));
}

#[test]
fn turn_rotates_the_facing_only() {
    let terrain = floor(5, 4);
    let mut c = Creature::new(&terrain, &Position { x: 1, y: 1 }, Direction::NW);
    c.turn(RelativeDir::RIGHT);
    assert_eq!(c.direction(), Direction::N);
    c.turn(RelativeDir::BACKWARD);
    assert_eq!(c.direction(), Direction::S);
    assert_eq!(c.position(), Position { x: 1, y: 1 });
    assert!(c.is_idle());
}

#[test]
fn hit_changes_nothing() {
    let terrain = floor(5, 4);
    let mut c = Creature::new(&terrain, &Position { x: 1, y: 1 }, Direction::NW);
    c.begin(Action::WAIT);
    c.hit();
    assert_eq!(c.position(), Position { x: 1, y: 1 });
    assert_eq!(c.direction(), Direction::NW);
    assert_eq!(c.pending(), Some(Action::WAIT));
}

#[test]
fn idle_creature_stays_idle() {
    let terrain = floor(5, 4);
    let mut c = Creature::new(&terrain, &Position { x: 1, y: 1 }, Direction::NW);
    for _ in 0..5 {
        assert_eq!(c.tick(), Phase::Idle);
        assert!(c.is_idle());
    }
}

fn phases(action: Action) -> Vec<Phase> {
    let terrain = floor(5, 4);
    let mut c = Creature::new(&terrain, &Position { x: 1, y: 1 }, Direction::NW);
    c.begin(action);
    assert_eq!(c.pending(), Some(action));
    let mut seen = Vec::new();
    while !c.is_idle() {
        seen.push(c.tick());
        assert!(seen.len() < 100);
    }
    seen
}

#[test]
fn wait_winds_up_one_tick_and_resolves() {
    assert_eq!(phases(Action::WAIT), vec![Phase::Winding, Phase::Resolved(Action::WAIT)]);
}

#[test]
fn every_action_takes_pre_plus_post_ticks_and_one_to_resolve() {
    let all = [
        Action::WAIT,
        Action::MOVE(RelativeDir::FORWARD),
        Action::MOVE(RelativeDir::BACKWARD),
        Action::TURN(RelativeDir::LEFT),
        Action::MELEE(RelativeDir::RIGHT),
    ];
    for a in all {
        let seen = phases(a);
        let pre = a.pre_ticks() as usize;
        let post = a.post_ticks() as usize;
        assert_eq!(seen.len(), pre + post + 1);
        for (i, p) in seen.iter().enumerate() {
            let expected = if i < pre {
                Phase::Winding
            } else if i == pre {
                Phase::Resolved(a)
            } else {
                Phase::Cooling
            };
            assert_eq!(*p, expected);
        }
    }
}

#[test]
fn backward_move_takes_twenty_six_ticks() {
    assert_eq!(phases(Action::MOVE(RelativeDir::BACKWARD)).len(), 26);
    assert_eq!(phases(Action::MELEE(RelativeDir::FORWARD)).len(), 13);
    assert_eq!(phases(Action::TURN(RelativeDir::FORWARD)).len(), 11);
}

#[test]
fn view_rect_reaches_the_sight_depth_ahead_and_two_rows_behind() {
    let terrain = floor(5, 4);
    let c = Creature::new(&terrain, &Position { x: 1, y: 1 }, Direction::NW);
    let offsets = c.each_in_view_rect();
    assert_eq!(PLAYER_VIEW, 10);
    assert_eq!(offsets.len(), 13 * 21);
    assert_eq!(offsets[0], Position { x: -10, y: -15 });
    assert_eq!(offsets[10], Position { x: 0, y: -10 });
    assert_eq!(offsets[20], Position { x: 10, y: -5 });
    assert_eq!(offsets[10 * 21 + 10], Position { x: 0, y: 0 });
    assert_eq!(offsets[12 * 21 + 20], Position { x: 10, y: 7 });
    assert!(offsets.contains(&Position { x: 0, y: 2 }));
    assert!(!offsets.contains(&Position { x: 0, y: 3 }));
    assert!(!offsets.contains(&Position { x: 0, y: -11 }));
}
