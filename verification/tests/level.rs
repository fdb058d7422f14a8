use bevman::level::{row_col_to_world, Level};

#[test]
fn level_index() {
    let level = Level::new(100, 20);
    let index = level.xy_to_index(0, 2);
    assert_eq!(index, 200);

    let index = level.xy_to_index(2, 3);
    assert_eq!(index, 302);

    let index = level.xy_to_index(99, 0);
    assert_eq!(index, 99);

    let index = level.xy_to_index(0, 1);
    assert_eq!(index, 100);
}

#[test]
fn level_walls() {
    let mut level = Level::new(100, 20);
    let x: usize = 0;
    let y: usize = 0;
    level.set_wall(x, y);
    assert!(level.is_wall(x, y));

    let x: usize = 90;
    let y: usize = 11;
    level.set_wall(x, y);
    assert!(level.is_wall(x, y));
}

#[test]
fn untouched_tiles_stay_clear() {
    let mut level = Level::new(10, 10);
    level.set_wall(5, 5);
    for x in 0..10 {
        for y in 0..10 {
            assert_eq!(level.is_wall(x, y), x == 5 && y == 5);
        }
    }
}

#[test]
fn wall_set_order_commutes() {
    let mut a = Level::new(8, 8);
    a.set_wall(1, 2);
    a.set_wall(3, 4);
    let mut b = Level::new(8, 8);
    b.set_wall(3, 4);
    b.set_wall(1, 2);
    for x in 0..8 {
        for y in 0..8 {
            assert_eq!(a.is_wall(x, y), b.is_wall(x, y));
        }
    }
}

#[test]
fn text_cell_world_position() {
    let v = row_col_to_world(1, 2);
    assert_eq!(v.x, 32);
    assert_eq!(v.y, -64);
    assert_eq!(v.z, 0);

    let origin = row_col_to_world(0, 0);
    assert_eq!(origin.x, 0);
    assert_eq!(origin.y, 0);
}
