use rustyhex::action::Action;
use rustyhex::grid::TileGrid;
use rustyhex::hex::{Direction, Position, RelativeDir};
use rustyhex::map::HexMap;
use rustyhex::creature::Phase;
use rustyhex::policy::MoveController;
use rustyhex::tile::Tile;
use rustyhex::view::MapView;

/// A policy that always gives the same action and counts how often it is asked.
struct Fixed {
    action: Action,
    asked: Vec<u32>,
    now: u32,
}

impl Fixed {
    fn new(action: Action) -> Fixed {
        Fixed { action, asked: Vec::new(), now: 0 }
    }
}

impl MoveController for Fixed {
    fn get_move(&mut self, _map: &HexMap, _id: usize) -> Action {
        self.asked.push(self.now);
        self.action
    }
}

fn floor_map(width: usize, height: usize) -> HexMap {
    HexMap::from_terrain(TileGrid::filled(width, height, Tile::FLOOR).unwrap())
}

fn run(map: &mut HexMap, id: usize, policy: &mut Fixed, ticks: u32) -> Vec<u32> {
    let mut redraws = Vec::new();
    for t in 0..ticks {
        policy.now = t;
        if map.tick(id, policy) {
            redraws.push(t);
        }
    }
    redraws
}

#[test]
fn waiting_policy_is_asked_again_after_the_wait_has_run_its_course() {
    let mut map = floor_map(8, 8);
    let id = map.spawn_creature(&Position { x: 2, y: 2 }, Direction::N).unwrap();
    let mut policy = Fixed::new(Action::WAIT);
    let redraws = run(&mut map, id, &mut policy, 10);
    // asked on tick 0; one tick of wind-up, the effect on tick 2, no
    // cool-down; asked again on tick 3
    assert_eq!(policy.asked, vec![0, 3, 6, 9]);
    assert_eq!(redraws, vec![2, 5, 8]);
    assert_eq!(map.creature(id).position(), Position { x: 2, y: 2 });
}

#[test]
fn latency_is_wind_up_plus_cool_down_beside_the_two_ticks_of_choosing_and_effect() {
    let all = [
        Action::WAIT,
        Action::TURN(RelativeDir::LEFT),
        Action::MELEE(RelativeDir::FORWARD),
        Action::MOVE(RelativeDir::FORWARD),
        Action::MOVE(RelativeDir::BACKWARD),
    ];
    for a in all {
        let mut map = floor_map(40, 40);
        let id = map.spawn_creature(&Position { x: 20, y: 20 }, Direction::N).unwrap();
        let mut policy = Fixed::new(a);
        let redraws = run(&mut map, id, &mut policy, 60);
        let pre = a.pre_ticks();
        let post = a.post_ticks();
        assert_eq!(policy.asked[0], 0);
        assert_eq!(redraws[0], pre + 1);
        assert_eq!(policy.asked[1], pre + post + 2);
        // between the two requests lie exactly pre + post ticks of waiting
        // and the one tick of the effect
        let between = policy.asked[1] - policy.asked[0] - 1;
        assert_eq!(between, pre + post + 1);
    }
}

#[test]
fn tick_only_redraws_when_an_effect_fires() {
    let mut map = floor_map(8, 8);
    let id = map.spawn_creature(&Position { x: 2, y: 2 }, Direction::N).unwrap();
    let mut policy = Fixed::new(Action::TURN(RelativeDir::RIGHT));
    let redraws = run(&mut map, id, &mut policy, 12);
    assert_eq!(redraws, vec![6]);
    assert_eq!(map.creature(id).direction(), Direction::NE);
    assert_eq!(policy.asked, vec![0]);
}

#[test]
fn advance_leaves_an_idle_creature_alone() {
    let mut map = floor_map(8, 8);
    let id = map.spawn_creature(&Position { x: 2, y: 2 }, Direction::N).unwrap();
    assert_eq!(map.advance(id), Phase::Idle);
    assert!(map.creature(id).is_idle());
    map.choose_action(id, Action::WAIT);
    assert!(!map.creature(id).is_idle());
    assert_eq!(map.creature(id).pending(), Some(Action::WAIT));
    assert_eq!(map.advance(id), Phase::Winding);
    assert_eq!(map.advance(id), Phase::Resolved(Action::WAIT));
    assert_eq!(map.advance(id), Phase::Idle);
}

#[test]
fn move_forward_steps_and_learns() {
    let mut map = floor_map(8, 8);
    let id = map.spawn_creature(&Position { x: 2, y: 2 }, Direction::NE).unwrap();
    map.do_move(id, RelativeDir::FORWARD);
    assert_eq!(map.creature(id).position(), Position { x: 3, y: 2 });
    assert!(map.creature(id).knows(&Position { x: 3, y: 2 }));
    assert!(!map.creature(id).knows(&Position { x: 2, y: 2 }));
    map.do_move(id, RelativeDir::BACKWARD);
    assert_eq!(map.creature(id).position(), Position { x: 2, y: 2 });
    map.do_move(id, RelativeDir::LEFT);
    assert_eq!(map.creature(id).position(), Position { x: 2, y: 1 });
    map.do_move(id, RelativeDir::RIGHT);
    assert_eq!(map.creature(id).position(), Position { x: 3, y: 2 });
    assert_eq!(map.creature(id).direction(), Direction::NE);
}

#[test]
fn move_into_a_wall_only_learns() {
    let mut terrain = TileGrid::filled(8, 8, Tile::FLOOR).unwrap();
    terrain.set(&Position { x: 2, y: 1 }, Tile::WALL);
    let mut map = HexMap::from_terrain(terrain);
    let id = map.spawn_creature(&Position { x: 2, y: 2 }, Direction::N).unwrap();
    map.do_move(id, RelativeDir::FORWARD);
    assert_eq!(map.creature(id).position(), Position { x: 2, y: 2 });
    assert!(map.creature(id).knows(&Position { x: 2, y: 1 }));
    assert_eq!(map.creature_at(&Position { x: 2, y: 1 }), None);
}

#[test]
fn move_into_somebody_only_learns() {
    let mut map = floor_map(8, 8);
    let a = map.spawn_creature(&Position { x: 2, y: 2 }, Direction::N).unwrap();
    let b = map.spawn_creature(&Position { x: 2, y: 1 }, Direction::S).unwrap();
    map.do_move(a, RelativeDir::FORWARD);
    assert_eq!(map.creature(a).position(), Position { x: 2, y: 2 });
    assert_eq!(map.creature(b).position(), Position { x: 2, y: 1 });
    assert!(map.creature(a).knows(&Position { x: 2, y: 1 }));
}

#[test]
fn move_wraps_over_the_edge() {
    let mut map = floor_map(4, 4);
    let id = map.spawn_creature(&Position { x: 0, y: 0 }, Direction::NW).unwrap();
    map.do_move(id, RelativeDir::FORWARD);
    assert_eq!(map.creature(id).position(), Position { x: 3, y: 3 });
    assert!(map.creature(id).knows(&Position { x: 3, y: 3 }));
}

#[test]
fn melee_reports_who_stands_there() {
    let mut map = floor_map(8, 8);
    let a = map.spawn_creature(&Position { x: 2, y: 2 }, Direction::N).unwrap();
    let b = map.spawn_creature(&Position { x: 3, y: 2 }, Direction::S).unwrap();
    assert_eq!(map.melee(a, RelativeDir::FORWARD), None);
    assert_eq!(map.melee(a, RelativeDir::RIGHT), Some(b));
    assert_eq!(map.melee(b, RelativeDir::RIGHT), Some(a));
    assert_eq!(map.melee(b, RelativeDir::LEFT), None);
    assert_eq!(map.creature(a).position(), Position { x: 2, y: 2 });
    assert_eq!(map.creature(b).position(), Position { x: 3, y: 2 });
    assert_eq!(map.creature(b).direction(), Direction::S);
}

#[test]
fn apply_carries_out_each_kind_of_action() {
    let mut map = floor_map(8, 8);
    let a = map.spawn_creature(&Position { x: 2, y: 2 }, Direction::N).unwrap();
    map.apply(a, Action::TURN(RelativeDir::LEFT));
    assert_eq!(map.creature(a).direction(), Direction::NW);
    map.apply(a, Action::MOVE(RelativeDir::FORWARD));
    assert_eq!(map.creature(a).position(), Position { x: 1, y: 1 });
    map.apply(a, Action::WAIT);
    map.apply(a, Action::MELEE(RelativeDir::FORWARD));
    assert_eq!(map.creature(a).position(), Position { x: 1, y: 1 });
    assert_eq!(map.creature(a).direction(), Direction::NW);
    map.turn(a, RelativeDir::BACKWARD);
    assert_eq!(map.creature(a).direction(), Direction::SE);
}

#[test]
fn contested_cell_goes_to_the_first_in_order() {
    // both creatures face the free cell (3, 2) and step at it on one tick
    let mut map = floor_map(8, 8);
    let a = map.spawn_creature(&Position { x: 2, y: 2 }, Direction::NE).unwrap();
    let b = map.spawn_creature(&Position { x: 4, y: 2 }, Direction::SW).unwrap();
    let mut pa = Fixed::new(Action::MOVE(RelativeDir::FORWARD));
    let mut pb = Fixed::new(Action::MOVE(RelativeDir::FORWARD));
    let mut fired = Vec::new();
    for t in 0..12 {
        let ra = map.tick(a, &mut pa);
        let rb = map.tick(b, &mut pb);
        if ra || rb {
            assert!(ra && rb);
            fired.push(t);
        }
    }
    assert_eq!(fired, vec![11]);
    assert_eq!(map.creature_at(&Position { x: 3, y: 2 }), Some(a));
    assert_eq!(map.creature(a).position(), Position { x: 3, y: 2 });
    assert_eq!(map.creature(b).position(), Position { x: 4, y: 2 });
    assert_eq!(map.creature_at(&Position { x: 4, y: 2 }), Some(b));
    assert_eq!(map.creature_at(&Position { x: 2, y: 2 }), None);
    assert!(map.creature(b).knows(&Position { x: 3, y: 2 }));
}

#[test]
fn contested_cell_goes_to_the_other_when_the_order_is_turned() {
    let mut map = floor_map(8, 8);
    let a = map.spawn_creature(&Position { x: 2, y: 2 }, Direction::NE).unwrap();
    let b = map.spawn_creature(&Position { x: 4, y: 2 }, Direction::SW).unwrap();
    let mut pa = Fixed::new(Action::MOVE(RelativeDir::FORWARD));
    let mut pb = Fixed::new(Action::MOVE(RelativeDir::FORWARD));
    for _ in 0..12 {
        map.tick(b, &mut pb);
        map.tick(a, &mut pa);
    }
    assert_eq!(map.creature_at(&Position { x: 3, y: 2 }), Some(b));
    assert_eq!(map.creature(a).position(), Position { x: 2, y: 2 });
    assert_eq!(map.creature(b).position(), Position { x: 3, y: 2 });
}
