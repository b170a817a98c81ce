use rustyhex::grid::{MapError, TileGrid};
use rustyhex::hex::Position;
use rustyhex::tile::Tile;

#[test]
fn tile_predicates() {
    assert!(Tile::WALL.is_wall());
    assert!(!Tile::WALL.is_floor());
    assert!(!Tile::WALL.is_passable());
    assert!(!Tile::WALL.can_see_through());
    assert!(Tile::FLOOR.is_floor());
    assert!(!Tile::FLOOR.is_wall());
    assert!(Tile::FLOOR.is_passable());
    assert!(Tile::FLOOR.can_see_through());
}

#[test]
fn grid_without_cells_is_refused() {
    assert_eq!(TileGrid::new(vec![]).err(), Some(MapError::ZeroSized));
    assert_eq!(TileGrid::new(vec![vec![], vec![]]).err(), Some(MapError::ZeroSized));
    assert_eq!(TileGrid::filled(0, 4, Tile::FLOOR).err(), Some(MapError::ZeroSized));
    assert_eq!(TileGrid::filled(4, 0, Tile::FLOOR).err(), Some(MapError::ZeroSized));
}

#[test]
fn ragged_grid_is_refused() {
    let tiles = vec![vec![Tile::FLOOR, Tile::WALL], vec![Tile::FLOOR]];
    assert_eq!(TileGrid::new(tiles).err(), Some(MapError::Ragged));
    let tiles = vec![vec![Tile::FLOOR], vec![Tile::FLOOR, Tile::WALL]];
    assert_eq!(TileGrid::new(tiles).err(), Some(MapError::Ragged));
}

#[test]
fn grid_keeps_its_tiles_by_column() {
    let tiles = vec![
        vec![Tile::FLOOR, Tile::WALL, Tile::FLOOR],
        vec![Tile::WALL, Tile::FLOOR, Tile::FLOOR],
    ];
    let g = TileGrid::new(tiles).unwrap();
    assert_eq!(g.width(), 2);
    assert_eq!(g.height(), 3);
    assert_eq!(g.at(&Position { x: 0, y: 1 }), Tile::WALL);
    assert_eq!(g.at(&Position { x: 1, y: 0 }), Tile::WALL);
    assert_eq!(g.at(&Position { x: 1, y: 1 }), Tile::FLOOR);
}

#[test]
fn grid_lookup_wraps_around() {
    let mut g = TileGrid::filled(4, 3, Tile::FLOOR).unwrap();
    g.set(&Position { x: 1, y: 2 }, Tile::WALL);
    assert_eq!(g.at(&Position { x: 1, y: 2 }), Tile::WALL);
    assert_eq!(g.at(&Position { x: 5, y: 2 }), Tile::WALL);
    assert_eq!(g.at(&Position { x: -3, y: -1 }), Tile::WALL);
    assert_eq!(g.at(&Position { x: 1, y: 5 }), Tile::WALL);
    assert_eq!(g.at(&Position { x: 2, y: 2 }), Tile::FLOOR);
    assert_eq!(g.wrap_position(&Position { x: -1, y: -1 }), Position { x: 3, y: 2 });
    assert_eq!(g.wrap_position(&Position { x: 4, y: 3 }), Position { x: 0, y: 0 });
    assert_eq!(g.wrap_position(&Position { x: 2, y: 1 }), Position { x: 2, y: 1 });
}

#[test]
fn set_wraps_and_changes_one_cell() {
    let mut g = TileGrid::filled(3, 3, Tile::FLOOR).unwrap();
    g.set(&Position { x: -1, y: 4 }, Tile::WALL);
    for x in 0..3 {
        for y in 0..3 {
            let expected = if (x, y) == (2, 1) { Tile::WALL } else { Tile::FLOOR };
            assert_eq!(g.at(&Position { x, y }), expected);
        }
    }
}

#[test]
fn oversized_grid_is_refused() {
    assert_eq!(TileGrid::filled(usize::MAX, 1, Tile::FLOOR).err(), Some(MapError::TooLarge));
    assert_eq!(TileGrid::filled(1, usize::MAX, Tile::WALL).err(), Some(MapError::TooLarge));
    // an empty side is reported before an oversized one
    assert_eq!(TileGrid::filled(0, usize::MAX, Tile::WALL).err(), Some(MapError::ZeroSized));
}
