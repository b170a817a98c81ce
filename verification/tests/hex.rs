use rustyhex::hex::{modulo, Direction, Position, RelativeDir};

const ALL: [Direction; 6] =
    [Direction::N, Direction::NE, Direction::SE, Direction::S, Direction::SW, Direction::NW];

#[test]
fn modulo_is_floor_remainder() {
    assert_eq!(modulo(7, 3), 1);
    assert_eq!(modulo(6, 3), 0);
    assert_eq!(modulo(0, 5), 0);
    assert_eq!(modulo(-1, 3), 2);
    assert_eq!(modulo(-3, 3), 0);
    assert_eq!(modulo(-4, 3), 2);
    assert_eq!(modulo(-1, 32), 31);
    assert_eq!(modulo(i64::MIN, 6), 4);
    assert_eq!(modulo(i64::MAX, 6), 1);
    assert_eq!(modulo(-7, 1), 0);
}

#[test]
fn relative_dir_to_int_values() {
    assert_eq!(RelativeDir::FORWARD.to_int(), 0);
    assert_eq!(RelativeDir::RIGHT.to_int(), 1);
    assert_eq!(RelativeDir::BACKWARD.to_int(), 3);
    assert_eq!(RelativeDir::LEFT.to_int(), 5);
}

#[test]
fn direction_to_uint_counts_clockwise_from_north() {
    for (i, d) in ALL.iter().enumerate() {
        assert_eq!(d.to_uint(), i);
    }
}

#[test]
fn opposite_twice_is_identity() {
    for d in ALL {
        assert_eq!(d.opposite().opposite(), d);
    }
    assert_eq!(Direction::N.opposite(), Direction::S);
    assert_eq!(Direction::NE.opposite(), Direction::SW);
    assert_eq!(Direction::SE.opposite(), Direction::NW);
}

#[test]
fn turn_forward_is_identity() {
    for d in ALL {
        assert_eq!(d.turn(RelativeDir::FORWARD), d);
    }
}

#[test]
fn left_undoes_right() {
    for d in ALL {
        assert_eq!(d.right().left(), d);
        assert_eq!(d.left().right(), d);
    }
    assert_eq!(Direction::N.left(), Direction::NW);
    assert_eq!(Direction::N.right(), Direction::NE);
    assert_eq!(Direction::NW.right(), Direction::N);
}

#[test]
fn turn_matches_relative_steps() {
    assert_eq!(Direction::N.turn(RelativeDir::RIGHT), Direction::NE);
    assert_eq!(Direction::N.turn(RelativeDir::LEFT), Direction::NW);
    assert_eq!(Direction::N.turn(RelativeDir::BACKWARD), Direction::S);
    assert_eq!(Direction::SW.turn(RelativeDir::RIGHT), Direction::NW);
    assert_eq!(Direction::NW.turn(RelativeDir::RIGHT), Direction::N);
    assert_eq!(Direction::SE.turn(RelativeDir::BACKWARD), Direction::NW);
}

#[test]
fn turn_by_int_wraps_both_ways() {
    assert_eq!(Direction::N.turn_by_int(-1), Direction::NW);
    assert_eq!(Direction::N.turn_by_int(7), Direction::NE);
    assert_eq!(Direction::N.turn_by_int(6), Direction::N);
    assert_eq!(Direction::S.turn_by_int(-9), Direction::N);
    assert_eq!(Direction::NE.turn_by_int(i64::MAX), Direction::SE);
    assert_eq!(Direction::NE.turn_by_int(i64::MIN), Direction::NW);
}

#[test]
fn turns_compose_by_adding_steps() {
    for d in ALL {
        for k1 in -7..8 {
            for k2 in -7..8 {
                assert_eq!(d.turn_by_int(k1).turn_by_int(k2), d.turn_by_int(k1 + k2));
                assert_eq!(d.turn_by_int(k1 + k2), d.turn_by_int(modulo(k1 + k2, 6)));
            }
        }
    }
}

#[test]
fn turn_mut_rotates_in_place_and_turn_m_does_not() {
    let mut d = Direction::NE;
    d.turn_mut(RelativeDir::LEFT);
    assert_eq!(d, Direction::N);
    let mut e = Direction::NE;
    assert_eq!(e.turn_m(RelativeDir::BACKWARD), Direction::SW);
    assert_eq!(e, Direction::NE);
}

#[test]
fn direction_relative_to_is_the_angular_difference() {
    assert_eq!(Direction::NE.relative_to(Direction::N), Direction::NE);
    assert_eq!(Direction::N.relative_to(Direction::NE), Direction::NW);
    assert_eq!(Direction::S.relative_to(Direction::S), Direction::N);
    for a in ALL {
        for b in ALL {
            assert_eq!(b.turn_by_int(a.relative_to(b).to_uint() as i64), a);
        }
    }
}

#[test]
fn neighbor_offsets() {
    let p = Position { x: 3, y: -2 };
    assert_eq!(p.neighbor(Direction::N), Position { x: 3, y: -3 });
    assert_eq!(p.neighbor(Direction::S), Position { x: 3, y: -1 });
    assert_eq!(p.neighbor(Direction::NE), Position { x: 4, y: -2 });
    assert_eq!(p.neighbor(Direction::SW), Position { x: 2, y: -2 });
    assert_eq!(p.neighbor(Direction::NW), Position { x: 2, y: -3 });
    assert_eq!(p.neighbor(Direction::SE), Position { x: 4, y: -1 });
}

#[test]
fn neighbor_then_opposite_returns() {
    for x in -3..4 {
        for y in -3..4 {
            let p = Position { x, y };
            for d in ALL {
                assert_eq!(p.neighbor(d).neighbor(d.opposite()), p);
            }
        }
    }
}

#[test]
fn is_neighbor_agrees_with_neighbor() {
    let a = Position { x: 0, y: 0 };
    for x in -2..3 {
        for y in -2..3 {
            let b = Position { x, y };
            let by_direction = ALL.iter().any(|d| a.neighbor(*d) == b);
            assert_eq!(a.is_neighbor(b), by_direction);
        }
    }
    assert!(!a.is_neighbor(a));
    assert!(!a.is_neighbor(Position { x: 1, y: -1 }));
    assert!(!a.is_neighbor(Position { x: -1, y: 1 }));
    assert!(a.is_neighbor(Position { x: 1, y: 1 }));
    assert!(!Position { x: i64::MIN, y: 0 }.is_neighbor(Position { x: i64::MAX, y: 0 }));
}

#[test]
fn position_arithmetic_is_componentwise() {
    let a = Position { x: 5, y: -7 };
    let b = Position { x: -2, y: 3 };
    assert_eq!(a.add(&b), Position { x: 3, y: -4 });
    assert_eq!(a.sub(&b), Position { x: 7, y: -10 });
    assert_eq!(a.relative_to(&b), Position { x: 7, y: -10 });
    assert_eq!(a.relative_to(&a), Position { x: 0, y: 0 });
}

#[test]
fn each_around_lists_a_sheared_rectangle_row_by_row() {
    let p = Position { x: 10, y: 20 };
    let cells = p.each_around(1, 1, 2, 1);
    assert_eq!(cells.len(), 3 * 4);
    // first row: vy = 19, vx = 8..=11, y = vy + floor((vx - 10) / 2)
    assert_eq!(cells[0], Position { x: 8, y: 18 });
    assert_eq!(cells[1], Position { x: 9, y: 18 });
    assert_eq!(cells[2], Position { x: 10, y: 19 });
    assert_eq!(cells[3], Position { x: 11, y: 19 });
    assert_eq!(cells[4], Position { x: 8, y: 19 });
    assert_eq!(cells[11], Position { x: 11, y: 21 });
}

#[test]
fn each_around_of_nothing_is_the_cell_itself() {
    let p = Position { x: -4, y: 9 };
    assert_eq!(p.each_around(0, 0, 0, 0), vec![p]);
}

#[test]
fn each_around_with_negative_extents() {
    let p = Position { x: 0, y: 0 };
    assert!(p.each_around(-1, 0, 0, 0).is_empty());
    assert!(p.each_around(0, 0, -3, 2).is_empty());
    assert!(p.each_around(-5, -5, 1, 1).is_empty());
    // two rows above the cell, none at or below it
    assert_eq!(p.each_around(2, -1, 0, 0), vec![Position { x: 0, y: -2 }, Position { x: 0, y: -1 }]);
    // the column to the right only
    assert_eq!(p.each_around(0, 0, -1, 1), vec![Position { x: 1, y: 0 }]);
    assert_eq!(p.each_around(0, 0, -3, 3), vec![Position { x: 3, y: 1 }]);
    assert_eq!(p.each_around(0, 0, 3, -3), vec![Position { x: -3, y: -2 }]);
}
