use rand::rngs::StdRng;
use rand::SeedableRng;
use rustyhex::action::Action;
use rustyhex::grid::TileGrid;
use rustyhex::hex::{Direction, Position, RelativeDir};
use rustyhex::map::HexMap;
use rustyhex::policy::{Command, Key, MonsterController, MoveController, PlayerController};
use rustyhex::tile::Tile;

fn arena() -> (HexMap, usize) {
    let mut terrain = TileGrid::filled(9, 9, Tile::FLOOR).unwrap();
    terrain.set(&Position { x: 1, y: 0 }, Tile::WALL);
    let mut map = HexMap::from_terrain(terrain);
    let id = map.spawn_creature(&Position { x: 4, y: 4 }, Direction::N).unwrap();
    (map, id)
}

#[test]
fn monster_alone_turns_on_low_draws_and_walks_otherwise() {
    let (map, id) = arena();
    assert_eq!(MonsterController::decide(&map, id, 0), Action::TURN(RelativeDir::LEFT));
    assert_eq!(MonsterController::decide(&map, id, 1), Action::TURN(RelativeDir::RIGHT));
    for draw in 2..10 {
        assert_eq!(MonsterController::decide(&map, id, draw), Action::MOVE(RelativeDir::FORWARD));
    }
}

#[test]
fn monster_before_a_wall_turns_left() {
    let (mut map, _) = arena();
    let id = map.spawn_creature(&Position { x: 1, y: 1 }, Direction::N).unwrap();
    assert_eq!(MonsterController::decide(&map, id, 0), Action::TURN(RelativeDir::LEFT));
    assert_eq!(MonsterController::decide(&map, id, 1), Action::TURN(RelativeDir::RIGHT));
    for draw in 2..10 {
        assert_eq!(MonsterController::decide(&map, id, draw), Action::TURN(RelativeDir::LEFT));
    }
}

#[test]
fn monster_strikes_at_whoever_is_near() {
    let (mut map, id) = arena();
    let right = map.spawn_creature(&Position { x: 5, y: 4 }, Direction::N).unwrap();
    for draw in 0..10 {
        assert_eq!(MonsterController::decide(&map, id, draw), Action::MELEE(RelativeDir::RIGHT));
    }
    map.spawn_creature(&Position { x: 3, y: 3 }, Direction::N).unwrap();
    assert_eq!(MonsterController::decide(&map, id, 5), Action::MELEE(RelativeDir::LEFT));
    map.spawn_creature(&Position { x: 4, y: 3 }, Direction::N).unwrap();
    assert_eq!(MonsterController::decide(&map, id, 5), Action::MELEE(RelativeDir::FORWARD));
    // the one to the right now has somebody ahead on its left
    assert_eq!(MonsterController::decide(&map, right, 5), Action::MELEE(RelativeDir::LEFT));
}

#[test]
fn monster_ignores_who_stands_behind() {
    let (mut map, id) = arena();
    map.spawn_creature(&Position { x: 4, y: 5 }, Direction::N).unwrap();
    map.spawn_creature(&Position { x: 3, y: 4 }, Direction::N).unwrap();
    map.spawn_creature(&Position { x: 5, y: 5 }, Direction::N).unwrap();
    assert_eq!(MonsterController::decide(&map, id, 7), Action::MOVE(RelativeDir::FORWARD));
}

#[test]
fn monster_policy_draws_one_of_its_choices() {
    let (map, id) = arena();
    let mut policy = MonsterController::new(StdRng::seed_from_u64(9));
    let mut turns_left = 0;
    let mut turns_right = 0;
    let mut walks = 0;
    for _ in 0..2000 {
        match policy.get_move(&map, id) {
            Action::TURN(RelativeDir::LEFT) => turns_left += 1,
            Action::TURN(RelativeDir::RIGHT) => turns_right += 1,
            Action::MOVE(RelativeDir::FORWARD) => walks += 1,
            other => panic!("{:?}", other),
        }
    }
    // one draw in ten turns left, one in ten right
    assert!(turns_left > 100 && turns_left < 300, "{}", turns_left);
    assert!(turns_right > 100 && turns_right < 300, "{}", turns_right);
    assert!(walks > 1400);
}

#[test]
fn keys_without_control_turn_and_move() {
    let cases = [
        (Key::K, Action::MOVE(RelativeDir::FORWARD)),
        (Key::Up, Action::MOVE(RelativeDir::FORWARD)),
        (Key::H, Action::TURN(RelativeDir::LEFT)),
        (Key::Left, Action::TURN(RelativeDir::LEFT)),
        (Key::L, Action::TURN(RelativeDir::RIGHT)),
        (Key::Right, Action::TURN(RelativeDir::RIGHT)),
        (Key::J, Action::MOVE(RelativeDir::BACKWARD)),
        (Key::Down, Action::MOVE(RelativeDir::BACKWARD)),
        (Key::Comma, Action::WAIT),
        (Key::Space, Action::WAIT),
    ];
    for (key, action) in cases {
        assert_eq!(PlayerController::decode(key, false, false), Command::Act(action));
    }
    assert_eq!(PlayerController::decode(Key::Escape, false, false), Command::Quit);
    assert_eq!(PlayerController::decode(Key::Escape, false, true), Command::Quit);
    assert_eq!(PlayerController::decode(Key::Other, false, false), Command::Ignore);
}

#[test]
fn keys_with_control_strike() {
    for rctrl in [false, true] {
        let cases = [
            (Key::H, RelativeDir::LEFT),
            (Key::Left, RelativeDir::LEFT),
            (Key::L, RelativeDir::RIGHT),
            (Key::Right, RelativeDir::RIGHT),
            (Key::K, RelativeDir::FORWARD),
            (Key::Up, RelativeDir::FORWARD),
        ];
        for (key, rd) in cases {
            assert_eq!(PlayerController::decode(key, true, rctrl), Command::Act(Action::MELEE(rd)));
        }
        for key in [Key::J, Key::Down, Key::Comma, Key::Space, Key::Escape, Key::Other] {
            assert_eq!(PlayerController::decode(key, true, rctrl), Command::Ignore);
        }
    }
    assert_eq!(
        PlayerController::decode(Key::K, false, true),
        Command::Act(Action::MELEE(RelativeDir::FORWARD))
    );
    assert_eq!(
        PlayerController::decode(Key::H, false, true),
        Command::Act(Action::TURN(RelativeDir::LEFT))
    );
}

#[test]
fn player_hands_on_the_last_key_and_then_waits() {
    let (map, id) = arena();
    let mut player = PlayerController::new();
    assert!(!player.has_input());
    assert_eq!(player.get_move(&map, id), Action::WAIT);
    assert_eq!(player.press(Key::Other, false, false), Command::Ignore);
    assert!(!player.has_input());
    assert_eq!(
        player.press(Key::J, false, false),
        Command::Act(Action::MOVE(RelativeDir::BACKWARD))
    );
    assert!(player.has_input());
    assert_eq!(player.press(Key::Other, false, false), Command::Ignore);
    assert_eq!(player.press(Key::L, true, false), Command::Act(Action::MELEE(RelativeDir::RIGHT)));
    assert_eq!(player.get_move(&map, id), Action::MELEE(RelativeDir::RIGHT));
    assert!(!player.has_input());
    assert_eq!(player.get_move(&map, id), Action::WAIT);
}

#[test]
fn quitting_makes_the_player_wait() {
    let (map, id) = arena();
    let mut player = PlayerController::new();
    player.press(Key::Up, false, false);
    assert_eq!(player.press(Key::Escape, false, false), Command::Quit);
    assert!(player.has_input());
    assert_eq!(player.get_move(&map, id), Action::WAIT);
}

#[test]
fn player_drives_a_creature_through_the_scheduler() {
    let (mut map, id) = arena();
    let mut player = PlayerController::new();
    player.press(Key::Up, false, false);
    let mut fired = 0;
    for _ in 0..11 {
        assert_eq!(fired, 0);
        if map.tick(id, &mut player) {
            fired += 1;
        }
    }
    map.tick(id, &mut player);
    assert_eq!(map.creature(id).position(), Position { x: 4, y: 3 });
}
