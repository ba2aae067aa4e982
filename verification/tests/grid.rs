use brain_engine_core::map_tile::decimal_string;
use brain_engine_core::{Direction, GridPos, MapTile, Tile, TileGrid, TileSet};

#[test]
fn direction_bits_are_powers_of_two() {
    assert_eq!(Direction::North.bit(), 1);
    assert_eq!(Direction::East.bit(), 2);
    assert_eq!(Direction::South.bit(), 4);
    assert_eq!(Direction::West.bit(), 8);
}

#[test]
fn direction_algebra_on_each_value() {
    assert_eq!(Direction::North.opposite(), Direction::South);
    assert_eq!(Direction::East.opposite(), Direction::West);
    assert_eq!(Direction::South.opposite(), Direction::North);
    assert_eq!(Direction::West.opposite(), Direction::East);
    assert_eq!(Direction::North.rotate_clockwise(), Direction::East);
    assert_eq!(Direction::East.rotate_clockwise(), Direction::South);
    assert_eq!(Direction::South.rotate_clockwise(), Direction::West);
    assert_eq!(Direction::West.rotate_clockwise(), Direction::North);
    assert_eq!(Direction::North.rotate_counter_clockwise(), Direction::West);
    assert_eq!(Direction::West.rotate_counter_clockwise(), Direction::South);
    assert_eq!(Direction::South.rotate_counter_clockwise(), Direction::East);
    assert_eq!(Direction::East.rotate_counter_clockwise(), Direction::North);
    assert_eq!(
        Direction::all(),
        [Direction::North, Direction::East, Direction::South, Direction::West]
    );
}

#[test]
fn direction_names_and_initials() {
    assert_eq!(Direction::North.to_string(), "North");
    assert_eq!(Direction::East.to_string(), "East");
    assert_eq!(Direction::South.to_string(), "South");
    assert_eq!(Direction::West.to_string(), "West");
    assert_eq!(Direction::North.initial_str(), "N");
    assert_eq!(Direction::East.initial_str(), "E");
    assert_eq!(Direction::South.initial_str(), "S");
    assert_eq!(Direction::West.initial_str(), "W");
}

#[test]
fn offsets_point_north_up_and_east_right() {
    assert_eq!(Direction::North.offset(), (0, 1));
    assert_eq!(Direction::East.offset(), (1, 0));
    assert_eq!(Direction::South.offset(), (0, -1));
    assert_eq!(Direction::West.offset(), (-1, 0));
}

#[test]
fn neighbor_steps_once_and_stops_at_the_end_of_the_numbers() {
    let here = GridPos::new(3, -2);
    assert_eq!(here.neighbor(Direction::North), Some(GridPos::new(3, -1)));
    assert_eq!(here.neighbor(Direction::East), Some(GridPos::new(4, -2)));
    assert_eq!(here.neighbor(Direction::South), Some(GridPos::new(3, -3)));
    assert_eq!(here.neighbor(Direction::West), Some(GridPos::new(2, -2)));
    let corner = GridPos::new(i32::MAX, i32::MIN);
    assert_eq!(corner.neighbor(Direction::East), None);
    assert_eq!(corner.neighbor(Direction::South), None);
    assert_eq!(
        corner.neighbor(Direction::West),
        Some(GridPos::new(i32::MAX - 1, i32::MIN))
    );
    assert_eq!(
        corner.neighbor(Direction::North),
        Some(GridPos::new(i32::MAX, i32::MIN + 1))
    );
}

#[test]
fn heading_names_single_steps_only() {
    let here = GridPos::new(0, 0);
    assert_eq!(here.heading(GridPos::new(0, 1)), Some(Direction::North));
    assert_eq!(here.heading(GridPos::new(1, 0)), Some(Direction::East));
    assert_eq!(here.heading(GridPos::new(0, -1)), Some(Direction::South));
    assert_eq!(here.heading(GridPos::new(-1, 0)), Some(Direction::West));
    assert_eq!(here.heading(here), None);
    assert_eq!(here.heading(GridPos::new(1, 1)), None);
    assert_eq!(here.heading(GridPos::new(0, 2)), None);
    assert_eq!(
        GridPos::new(i32::MIN, 0).heading(GridPos::new(i32::MAX, 0)),
        None
    );
    assert_eq!(
        GridPos::new(i32::MAX, 0).heading(GridPos::new(i32::MIN, 0)),
        None
    );
}

#[test]
fn in_bounds_is_half_open() {
    assert!(GridPos::new(0, 0).in_bounds(1, 1));
    assert!(GridPos::new(2, 4).in_bounds(3, 5));
    assert!(!GridPos::new(3, 4).in_bounds(3, 5));
    assert!(!GridPos::new(2, 5).in_bounds(3, 5));
    assert!(!GridPos::new(-1, 0).in_bounds(3, 5));
    assert!(!GridPos::new(0, -1).in_bounds(3, 5));
    assert!(!GridPos::new(0, 0).in_bounds(0, 5));
    assert!(GridPos::new(i32::MAX, i32::MAX).in_bounds(usize::MAX, usize::MAX));
}

#[test]
fn grid_keeps_one_tile_per_cell() {
    let room = Tile::new(TileSet::Room, MapTile::NE);
    let corridor = Tile::new(TileSet::Corridor, MapTile::SW);
    let mut grid = TileGrid::new();
    assert_eq!(grid.get(GridPos::new(0, 0)), None);
    assert!(!grid.contains_key(GridPos::new(0, 0)));

    assert_eq!(grid.insert(GridPos::new(0, 0), room), None);
    assert_eq!(grid.insert(GridPos::new(0, 0), corridor), Some(room));
    assert_eq!(grid.get(GridPos::new(0, 0)), Some(&corridor));
    assert!(grid.contains_key(GridPos::new(0, 0)));
}

#[test]
fn grid_tells_cells_apart_on_both_axes() {
    let mut grid = TileGrid::new();
    let corners = [
        GridPos::new(i32::MIN, i32::MIN),
        GridPos::new(i32::MIN, i32::MAX),
        GridPos::new(i32::MAX, i32::MIN),
        GridPos::new(i32::MAX, i32::MAX),
        GridPos::new(0, 1),
        GridPos::new(1, 0),
        GridPos::new(0, -1),
        GridPos::new(-1, 0),
        GridPos::new(0, 0),
    ];
    let tiles = [
        MapTile::ZERO,
        MapTile::N,
        MapTile::E,
        MapTile::S,
        MapTile::W,
        MapTile::NE,
        MapTile::NS,
        MapTile::NW,
        MapTile::ES,
    ];
    for (position, map_tile) in corners.iter().zip(tiles.iter()) {
        assert_eq!(
            grid.insert(*position, Tile::new(TileSet::Room, *map_tile)),
            None
        );
    }
    for (position, map_tile) in corners.iter().zip(tiles.iter()) {
        assert_eq!(
            grid.get(*position),
            Some(&Tile::new(TileSet::Room, *map_tile))
        );
    }
    assert!(!grid.contains_key(GridPos::new(1, 1)));
}

#[test]
fn masks_are_the_sums_of_the_exit_bits() {
    let table = [
        (MapTile::ZERO, 0u8),
        (MapTile::N, 1),
        (MapTile::E, 2),
        (MapTile::NE, 3),
        (MapTile::S, 4),
        (MapTile::NS, 5),
        (MapTile::ES, 6),
        (MapTile::NES, 7),
        (MapTile::W, 8),
        (MapTile::NW, 9),
        (MapTile::EW, 10),
        (MapTile::NEW, 11),
        (MapTile::SW, 12),
        (MapTile::NWS, 13),
        (MapTile::ESW, 14),
        (MapTile::NESW, 15),
    ];
    for (tile, mask) in table {
        assert_eq!(tile.mask(), mask);
        assert_eq!(MapTile::from_mask(mask), Some(tile));
        let sum: u8 = tile.directions().iter().map(|d| d.bit()).sum();
        assert_eq!(sum, mask);
        for direction in Direction::all() {
            assert_eq!(tile.has_exit(direction), mask & direction.bit() != 0);
            assert_eq!(
                tile.has_exit(direction),
                tile.directions().contains(&direction)
            );
        }
    }
    assert_eq!(MapTile::from_mask(16), None);
    assert_eq!(MapTile::from_mask(255), None);
}

#[test]
fn every_tile_has_its_name() {
    let table = [
        (MapTile::ZERO, "ZERO"),
        (MapTile::N, "N"),
        (MapTile::E, "E"),
        (MapTile::S, "S"),
        (MapTile::W, "W"),
        (MapTile::NE, "NE"),
        (MapTile::NS, "NS"),
        (MapTile::NW, "NW"),
        (MapTile::ES, "ES"),
        (MapTile::EW, "EW"),
        (MapTile::SW, "SW"),
        (MapTile::NES, "NES"),
        (MapTile::NEW, "NEW"),
        (MapTile::NWS, "NSW"),
        (MapTile::ESW, "ESW"),
        (MapTile::NESW, "NESW"),
    ];
    for (tile, name) in table {
        assert_eq!(tile.to_string(), name);
    }
}

#[test]
fn from_directions_accepts_every_order_of_every_set() {
    let all = Direction::all();
    for first in all {
        for second in all {
            let pair = MapTile::from_directions(&[first, second]);
            if first == second {
                assert_eq!(pair, None);
            } else {
                assert_eq!(pair, MapTile::from_mask(first.bit() | second.bit()));
                assert_eq!(pair, MapTile::from_directions(&[second, first]));
            }
        }
    }
    assert_eq!(
        MapTile::from_directions(&[
            Direction::West,
            Direction::South,
            Direction::East,
            Direction::North
        ]),
        Some(MapTile::NESW)
    );
    assert_eq!(MapTile::from_directions(&[]), Some(MapTile::ZERO));
}

#[test]
fn from_directions_refuses_five_of_anything() {
    let all = Direction::all();
    for extra in all {
        assert_eq!(
            MapTile::from_directions(&[all[0], all[1], all[2], all[3], extra]),
            None
        );
    }
    assert_eq!(MapTile::from_directions(&[Direction::West; 4]), None);
}

#[test]
fn numbers_are_written_in_decimal() {
    assert_eq!(decimal_string(0), "0");
    assert_eq!(decimal_string(7), "7");
    assert_eq!(decimal_string(9), "9");
    assert_eq!(decimal_string(10), "10");
    assert_eq!(decimal_string(15), "15");
    assert_eq!(decimal_string(99), "99");
    assert_eq!(decimal_string(100), "100");
    assert_eq!(decimal_string(109), "109");
    assert_eq!(decimal_string(255), "255");
    for value in 0..=255u8 {
        assert_eq!(decimal_string(value), format!("{value}"));
    }
}

#[test]
fn asset_names_join_style_mask_and_exits() {
    assert_eq!(
        Tile::new(TileSet::Room, MapTile::NS).asset_name(),
        "room-5-NS.png"
    );
    assert_eq!(
        Tile::new(TileSet::Corridor, MapTile::EW).asset_name(),
        "corridor-10-EW.png"
    );
    assert_eq!(
        Tile::new(TileSet::Room, MapTile::ZERO).asset_name(),
        "room-0-ZERO.png"
    );
    assert_eq!(
        Tile::new(TileSet::Corridor, MapTile::NWS).asset_name(),
        "corridor-13-NSW.png"
    );
}
