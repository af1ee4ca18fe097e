use game_of_rust::automaton::step;
use game_of_rust::coord::Coord;
use game_of_rust::live_set::LiveSet;

fn set_from(coords: &[(i32, i32)]) -> LiveSet {
    let mut s = LiveSet::new();
    for &(x, y) in coords {
        s.insert(Coord::new(x, y));
    }
    s
}

fn assert_members(s: &LiveSet, coords: &[(i32, i32)]) {
    assert_eq!(s.len(), coords.len());
    for &(x, y) in coords {
        assert!(s.contains(&Coord::new(x, y)), "missing ({}, {})", x, y);
    }
}

#[test]
fn empty_world_is_a_fixed_point() {
    let empty = LiveSet::new();
    let once = step(&empty);
    assert_eq!(once.len(), 0);
    let twice = step(&once);
    assert_eq!(twice.len(), 0);
}

#[test]
fn isolated_cell_dies() {
    let world = set_from(&[(5, -3)]);
    let next = step(&world);
    assert_eq!(next.len(), 0);
}

#[test]
fn isolated_cell_dies_at_origin() {
    let world = set_from(&[(0, 0)]);
    assert_eq!(step(&world).len(), 0);
}

#[test]
fn two_cell_pair_dies() {
    let world = set_from(&[(0, 0), (1, 0)]);
    assert_eq!(step(&world).len(), 0);
}

#[test]
fn block_is_still_life() {
    let world = set_from(&[(0, 0), (1, 0), (0, 1), (1, 1)]);
    let next = step(&world);
    assert_members(&next, &[(0, 0), (1, 0), (0, 1), (1, 1)]);
}

#[test]
fn blinker_oscillates_with_period_two() {
    let world = set_from(&[(0, 0), (1, 0), (2, 0)]);
    let next = step(&world);
    assert_members(&next, &[(1, -1), (1, 0), (1, 1)]);
    let back = step(&next);
    assert_members(&back, &[(0, 0), (1, 0), (2, 0)]);
}

#[test]
fn glider_translates_after_four_generations() {
    let world = set_from(&[(1, 0), (2, 1), (0, 2), (1, 2), (2, 2)]);
    let mut current = world;
    for _ in 0..4 {
        current = step(&current);
    }
    assert_members(&current, &[(2, 1), (3, 2), (1, 3), (2, 3), (3, 3)]);
}

#[test]
fn step_reads_only_the_old_generation() {
    // A birth at (1, 1) must not feed back into this generation's counts:
    // the L-tromino becomes a block, not something larger.
    let world = set_from(&[(0, 0), (1, 0), (0, 1)]);
    let next = step(&world);
    assert_members(&next, &[(0, 0), (1, 0), (0, 1), (1, 1)]);
}

#[test]
fn neighbors_are_eight_distinct_cells() {
    let c = Coord::new(3, -4);
    let nbrs = c.neighbors();
    assert_eq!(nbrs.len(), 8);
    for (i, a) in nbrs.iter().enumerate() {
        assert_ne!(*a, c);
        for b in nbrs.iter().skip(i + 1) {
            assert_ne!(*a, *b);
        }
    }
    for (dx, dy) in [
        (0, 1),
        (0, -1),
        (1, 0),
        (1, 1),
        (1, -1),
        (-1, 0),
        (-1, 1),
        (-1, -1),
    ] {
        assert!(nbrs.contains(&Coord::new(3 + dx, -4 + dy)));
    }
}

#[test]
fn neighbors_wrap_at_the_coordinate_extremes() {
    let c = Coord::new(i32::MAX, i32::MIN);
    let nbrs = c.neighbors();
    assert_eq!(nbrs.len(), 8);
    assert!(nbrs.contains(&Coord::new(i32::MIN, i32::MIN)));
    assert!(nbrs.contains(&Coord::new(i32::MAX - 1, i32::MAX)));
    for (i, a) in nbrs.iter().enumerate() {
        assert_ne!(*a, c);
        for b in nbrs.iter().skip(i + 1) {
            assert_ne!(*a, *b);
        }
    }
}

#[test]
fn live_set_insert_is_idempotent() {
    let mut s = LiveSet::new();
    s.insert(Coord::new(2, 2));
    s.insert(Coord::new(2, 2));
    assert_eq!(s.len(), 1);
    assert!(s.contains(&Coord::new(2, 2)));
}

#[test]
fn live_set_remove_deletes_only_the_named_cell() {
    let mut s = set_from(&[(0, 0), (1, 1), (2, 2)]);
    s.remove(Coord::new(1, 1));
    assert_members(&s, &[(0, 0), (2, 2)]);
    s.remove(Coord::new(9, 9));
    assert_members(&s, &[(0, 0), (2, 2)]);
}

#[test]
fn live_set_coords_lists_each_cell_once() {
    let s = set_from(&[(0, 0), (4, -7)]);
    let listed = s.coords();
    assert_eq!(listed.len(), 2);
    assert!(listed.contains(&Coord::new(0, 0)));
    assert!(listed.contains(&Coord::new(4, -7)));
}

#[test]
fn negative_coordinates_step_like_any_others() {
    let world = set_from(&[(-10, -10), (-9, -10), (-8, -10)]);
    let next = step(&world);
    assert_members(&next, &[(-9, -11), (-9, -10), (-9, -9)]);
}
