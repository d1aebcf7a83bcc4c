use hiekkapeli::frame::Frame;
use hiekkapeli::kernel::{mean_of, settle, update_column};
use hiekkapeli::rule::Move;
use hiekkapeli::tile::Tile;

const AIR: Tile = Tile::Air { pressure: 0 };
const WALL: Tile = Tile::Sand { humidity: 0 };

/// A world of the given shape in column-major order: walls of dry sand
/// around still air, with the listed interior cells replaced.
fn world(width: usize, height: usize, cells: &[(usize, usize, Tile)]) -> Vec<Tile> {
    let mut tiles = vec![AIR; width * height];
    for x in 0..width {
        for y in 0..height {
            if x == 0 || y == 0 || x == width - 1 || y == height - 1 {
                tiles[x * height + y] = WALL;
            }
        }
    }
    for (x, y, tile) in cells {
        tiles[x * height + y] = *tile;
    }
    tiles
}

fn next(width: usize, height: usize, tiles: &[Tile]) -> Vec<Tile> {
    let frame = Frame::new(width, height, tiles).unwrap();
    let mut out = Vec::new();
    for x in 0..width {
        for y in 0..height {
            out.push(frame.next_tile(x, y));
        }
    }
    out
}

fn sand(humidity: u8) -> Tile {
    Tile::Sand { humidity }
}

fn water(pressure: i8) -> Tile {
    Tile::Water { pressure }
}

fn air(pressure: i8) -> Tile {
    Tile::Air { pressure }
}

#[test]
fn frame_new_checks_the_shape() {
    let tiles = vec![AIR; 12];
    assert!(Frame::new(3, 4, &tiles).is_some());
    assert!(Frame::new(4, 3, &tiles).is_some());
    assert!(Frame::new(12, 1, &tiles).is_some());
    assert!(Frame::new(3, 3, &tiles).is_none());
    assert!(Frame::new(0, 4, &tiles).is_none());
    assert!(Frame::new(4, 0, &tiles).is_none());
    assert!(Frame::new(usize::MAX, 2, &tiles).is_none());
    assert!(Frame::new(0, 0, &[]).is_none());
}

#[test]
fn frame_addresses_cells_column_by_column() {
    let tiles: Vec<Tile> = (0..12).map(|i| sand(i)).collect();
    let frame = Frame::new(3, 4, &tiles).unwrap();
    assert_eq!(frame.tile(0, 0), sand(0));
    assert_eq!(frame.tile(0, 3), sand(3));
    assert_eq!(frame.tile(1, 0), sand(4));
    assert_eq!(frame.tile(2, 3), sand(11));
}

#[test]
fn interior_is_what_lies_on_no_wall() {
    let tiles = vec![AIR; 20];
    let frame = Frame::new(4, 5, &tiles).unwrap();
    for x in 0..4 {
        for y in 0..5 {
            let inside = (x == 1 || x == 2) && (1..=3).contains(&y);
            assert_eq!(frame.is_interior(x, y), inside);
        }
    }
    let thin = Frame::new(2, 10, &tiles).unwrap();
    for y in 0..10 {
        assert!(!thin.is_interior(0, y));
        assert!(!thin.is_interior(1, y));
    }
}

#[test]
fn steps_lead_to_their_targets_and_back() {
    let steps = [
        (Move::Stay, (5, 7)),
        (Move::Down, (5, 8)),
        (Move::DownLeft, (4, 8)),
        (Move::DownRight, (6, 8)),
        (Move::Left, (4, 7)),
        (Move::Right, (6, 7)),
    ];
    for (step, target) in steps {
        assert_eq!(step.target(5, 7), target);
        assert_eq!(step.origin(target.0, target.1), (5, 7));
    }
}

#[test]
fn mean_of_rounds_down() {
    assert_eq!(mean_of(10, 0), 5);
    assert_eq!(mean_of(11, 0), 5);
    assert_eq!(mean_of(-3, -8), -6);
    assert_eq!(mean_of(-1, 0), -1);
    assert_eq!(mean_of(1, 0), 0);
    assert_eq!(mean_of(127, 127), 127);
    assert_eq!(mean_of(-128, -128), -128);
    assert_eq!(mean_of(127, -128), -1);
    assert_eq!(mean_of(7, 7), 7);
}

#[test]
fn settle_averages_water_that_flowed_along_a_row() {
    assert_eq!(settle(water(10), air(0), Move::Left), water(5));
    assert_eq!(settle(water(10), air(-5), Move::Right), water(2));
    assert_eq!(settle(water(10), air(0), Move::Down), water(10));
    assert_eq!(settle(water(10), air(0), Move::DownLeft), water(10));
    assert_eq!(settle(water(10), air(0), Move::DownRight), water(10));
    assert_eq!(settle(sand(10), air(4), Move::Left), sand(10));
    assert_eq!(settle(sand(10), air(4), Move::Down), sand(10));
}

#[test]
fn nothing_moves_in_a_world_at_rest() {
    let tiles = world(5, 5, &[]);
    assert_eq!(next(5, 5, &tiles), tiles);
}

#[test]
fn sand_falls_into_air_below() {
    let tiles = world(5, 5, &[(2, 1, sand(3))]);
    let frame = Frame::new(5, 5, &tiles).unwrap();
    assert_eq!(frame.intent(2, 1), Move::Down);
    assert_eq!(frame.arrival(2, 2), Move::Down);
    assert_eq!(next(5, 5, &tiles), world(5, 5, &[(2, 2, sand(3))]));
}

#[test]
fn water_falls_and_keeps_its_pressure() {
    let tiles = world(5, 5, &[(2, 1, water(0))]);
    assert_eq!(next(5, 5, &tiles), world(5, 5, &[(2, 2, water(0))]));
}

#[test]
fn the_air_displaced_takes_the_place_of_the_material() {
    let tiles = world(5, 6, &[(2, 2, sand(3)), (2, 3, air(-7))]);
    let after = next(5, 6, &tiles);
    assert_eq!(after[2 * 6 + 2], air(-7));
    assert_eq!(after[2 * 6 + 3], sand(3));
}

#[test]
fn sand_on_the_bottom_wall_rests() {
    let tiles = world(5, 5, &[(2, 3, sand(3))]);
    let frame = Frame::new(5, 5, &tiles).unwrap();
    assert_eq!(frame.intent(2, 3), Move::Stay);
    assert_eq!(next(5, 5, &tiles), tiles);
}

#[test]
fn sand_slides_to_the_left_first() {
    let tiles = world(5, 5, &[(2, 2, sand(1)), (2, 3, sand(2))]);
    let frame = Frame::new(5, 5, &tiles).unwrap();
    assert_eq!(frame.intent(2, 2), Move::DownLeft);
    assert_eq!(frame.arrival(1, 3), Move::DownLeft);
    assert_eq!(frame.arrival(3, 3), Move::Stay);
    assert_eq!(next(5, 5, &tiles), world(5, 5, &[(1, 3, sand(1)), (2, 3, sand(2))]));
}

#[test]
fn sand_slides_to_the_right_where_the_left_is_taken() {
    let tiles = world(5, 5, &[(2, 2, sand(1)), (2, 3, sand(2)), (1, 3, sand(3))]);
    let frame = Frame::new(5, 5, &tiles).unwrap();
    assert_eq!(frame.intent(2, 2), Move::DownRight);
    assert_eq!(
        next(5, 5, &tiles),
        world(5, 5, &[(3, 3, sand(1)), (2, 3, sand(2)), (1, 3, sand(3))])
    );
}

#[test]
fn sand_beside_a_wall_does_not_slide_into_it() {
    let tiles = world(4, 5, &[(1, 2, sand(1)), (1, 3, sand(2)), (2, 3, sand(3))]);
    let frame = Frame::new(4, 5, &tiles).unwrap();
    assert_eq!(frame.intent(1, 2), Move::Stay);
    assert_eq!(next(4, 5, &tiles), tiles);
}

#[test]
fn of_two_sliding_tiles_the_lower_column_wins() {
    let before = [
        (1, 3, sand(13)),
        (2, 3, sand(23)),
        (4, 3, sand(43)),
        (2, 2, sand(22)),
        (4, 2, sand(42)),
    ];
    let tiles = world(7, 5, &before);
    let frame = Frame::new(7, 5, &tiles).unwrap();
    assert_eq!(frame.intent(2, 2), Move::DownRight);
    assert_eq!(frame.intent(4, 2), Move::DownLeft);
    assert_eq!(frame.arrival(3, 3), Move::DownRight);
    let after = [
        (1, 3, sand(13)),
        (2, 3, sand(23)),
        (4, 3, sand(43)),
        (3, 3, sand(22)),
        (4, 2, sand(42)),
    ];
    assert_eq!(next(7, 5, &tiles), world(7, 5, &after));
}

#[test]
fn a_falling_tile_wins_over_sliding_ones() {
    let before = [
        (1, 3, sand(13)),
        (2, 3, sand(23)),
        (4, 3, sand(43)),
        (2, 2, sand(22)),
        (3, 2, sand(32)),
        (4, 2, sand(42)),
    ];
    let tiles = world(7, 5, &before);
    let frame = Frame::new(7, 5, &tiles).unwrap();
    assert_eq!(frame.arrival(3, 3), Move::Down);
    let after = [
        (1, 3, sand(13)),
        (2, 3, sand(23)),
        (4, 3, sand(43)),
        (2, 2, sand(22)),
        (3, 3, sand(32)),
        (4, 2, sand(42)),
    ];
    assert_eq!(next(7, 5, &tiles), world(7, 5, &after));
}

#[test]
fn a_tile_that_loses_moves_in_a_later_tick() {
    let before = [
        (1, 3, sand(13)),
        (2, 3, sand(23)),
        (4, 3, sand(43)),
        (2, 2, sand(22)),
        (4, 2, sand(42)),
    ];
    let once = next(7, 5, &world(7, 5, &before));
    let twice = next(7, 5, &once);
    let after = [
        (1, 3, sand(13)),
        (2, 3, sand(23)),
        (4, 3, sand(43)),
        (3, 3, sand(22)),
        (5, 3, sand(42)),
    ];
    assert_eq!(twice, world(7, 5, &after));
}

#[test]
fn water_flows_into_air_of_lower_pressure_and_takes_the_mean() {
    let tiles = world(5, 5, &[(2, 3, water(10))]);
    let frame = Frame::new(5, 5, &tiles).unwrap();
    assert!(frame.flows_into(2, 3, 1, 3));
    assert!(frame.flows_into(2, 3, 3, 3));
    assert!(!frame.flows_into(2, 3, 2, 4));
    assert_eq!(frame.intent(2, 3), Move::Left);
    assert_eq!(frame.arrival(1, 3), Move::Left);
    let after = [(1, 3, water(5)), (2, 2, air(1)), (3, 3, air(1))];
    assert_eq!(next(5, 5, &tiles), world(5, 5, &after));
}

#[test]
fn water_flows_to_the_right_where_the_left_is_taken() {
    let tiles = world(5, 5, &[(2, 3, water(-3)), (1, 3, sand(1)), (3, 3, air(-8))]);
    let frame = Frame::new(5, 5, &tiles).unwrap();
    assert_eq!(frame.intent(2, 3), Move::Right);
    let after = next(5, 5, &tiles);
    assert_eq!(after[3 * 5 + 3], water(-6));
    assert_eq!(after[2 * 5 + 3], air(-8));
    assert_eq!(after[5 + 3], sand(1));
}

#[test]
fn water_does_not_flow_without_a_difference_of_pressure() {
    let tiles = world(5, 5, &[(2, 3, water(0))]);
    let frame = Frame::new(5, 5, &tiles).unwrap();
    assert!(!frame.flows_into(2, 3, 1, 3));
    assert_eq!(frame.intent(2, 3), Move::Stay);
    assert_eq!(next(5, 5, &tiles), tiles);
    let lower = world(5, 5, &[(2, 3, water(-1))]);
    let after = next(5, 5, &lower);
    assert_eq!(after[2 * 5 + 3], water(-1));
}

#[test]
fn sand_does_not_flow_along_a_row() {
    let tiles = world(5, 5, &[(2, 3, sand(10))]);
    assert_eq!(next(5, 5, &tiles), tiles);
}

#[test]
fn of_two_flowing_tiles_the_lower_column_wins() {
    let tiles = world(5, 5, &[(1, 3, water(20)), (3, 3, water(40))]);
    let frame = Frame::new(5, 5, &tiles).unwrap();
    assert_eq!(frame.intent(1, 3), Move::Right);
    assert_eq!(frame.intent(3, 3), Move::Left);
    assert_eq!(frame.arrival(2, 3), Move::Right);
    let after = next(5, 5, &tiles);
    assert_eq!(after[5 + 3], air(0));
    assert_eq!(after[2 * 5 + 3], water(10));
    assert_eq!(after[3 * 5 + 3], water(40));
}

#[test]
fn air_gains_a_unit_from_each_neighbour_of_higher_pressure() {
    let cells = [(2, 2, air(5)), (2, 1, air(9)), (1, 2, air(6)), (3, 2, air(5)), (2, 3, air(4))];
    let tiles = world(5, 5, &cells);
    let frame = Frame::new(5, 5, &tiles).unwrap();
    assert_eq!(frame.presses(2, 1, 5), 1);
    assert_eq!(frame.presses(3, 2, 5), 0);
    assert_eq!(frame.presses(2, 3, 5), 0);
    assert_eq!(frame.presses(0, 0, -100), 0);
    assert_eq!(frame.diffuse(2, 2, 5), air(7));
    let after = next(5, 5, &tiles);
    assert_eq!(after[2 * 5 + 2], air(7));
    assert_eq!(after[2 * 5 + 1], air(9));
    assert_eq!(after[5 + 2], air(6));
    assert_eq!(after[3 * 5 + 2], air(5));
    assert_eq!(after[2 * 5 + 3], air(5));
}

#[test]
fn air_pressure_saturates() {
    let cells =
        [(2, 2, air(126)), (2, 1, air(127)), (1, 2, air(127)), (3, 2, air(127)), (2, 3, air(127))];
    let tiles = world(5, 5, &cells);
    let after = next(5, 5, &tiles);
    assert_eq!(after[2 * 5 + 2], air(127));
    assert_eq!(after[2 * 5 + 1], air(127));
    let one = world(5, 5, &[(2, 2, air(126)), (2, 1, air(127))]);
    assert_eq!(next(5, 5, &one)[2 * 5 + 2], air(127));
    let lowest = world(5, 5, &[(2, 2, air(-128))]);
    assert_eq!(next(5, 5, &lowest)[2 * 5 + 2], air(-124));
}

#[test]
fn air_senses_water_but_not_sand() {
    let tiles = world(5, 5, &[(2, 3, water(1)), (1, 2, sand(200))]);
    let after = next(5, 5, &tiles);
    assert_eq!(after[2 * 5 + 2], air(1));
    let walls = world(5, 5, &[]);
    assert_eq!(next(5, 5, &walls)[5 + 1], AIR);
}

#[test]
fn walls_never_change() {
    let mut tiles = world(5, 5, &[(1, 1, sand(1)), (3, 3, water(100))]);
    tiles[2 * 5] = Tile::Sand { humidity: 9 };
    tiles[0 * 5 + 2] = Tile::Air { pressure: 50 };
    tiles[4 * 5 + 2] = Tile::Water { pressure: 120 };
    tiles[2 * 5 + 4] = Tile::Air { pressure: -3 };
    let after = next(5, 5, &tiles);
    for x in 0..5 {
        for y in 0..5 {
            if x == 0 || y == 0 || x == 4 || y == 4 {
                assert_eq!(after[x * 5 + y], tiles[x * 5 + y]);
            }
        }
    }
    let frame = Frame::new(5, 5, &tiles).unwrap();
    assert_eq!(frame.intent(2, 0), Move::Stay);
    assert!(!frame.is_open(0, 2));
    assert!(!frame.is_open(2, 4));
    assert!(frame.is_open(2, 2));
    assert!(!frame.is_open(1, 1));
}

#[test]
fn update_column_fills_the_column_with_its_next_tiles() {
    let tiles = world(5, 5, &[(2, 1, sand(3)), (3, 3, water(10))]);
    let frame = Frame::new(5, 5, &tiles).unwrap();
    let expected = next(5, 5, &tiles);
    for x in 0..5 {
        let mut column = vec![Tile::Sand { humidity: 99 }; 5];
        update_column(frame, x, &mut column);
        assert_eq!(&column[..], &expected[x * 5..x * 5 + 5]);
    }
}

#[test]
fn a_thin_world_has_no_interior_and_never_changes() {
    let tiles = vec![sand(1), water(5), air(7), water(-5), air(-9), sand(0)];
    assert_eq!(next(2, 3, &tiles), tiles);
    assert_eq!(next(3, 2, &tiles), tiles);
    assert_eq!(next(1, 6, &tiles), tiles);
    assert_eq!(next(6, 1, &tiles), tiles);
}
