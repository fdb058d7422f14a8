use bevman::level::Level;
use bevman::motion::{advance_motion, advance_motion_checked};
use bevman::player::{MoveDirection, Speed};
use bevman::vec3::Vec3;

#[test]
fn free_motion_commits_candidate() {
    let map = Level::new(4, 4);
    let mut pos = Vec3::new(0, 0, 5);
    // 100 units/s for 16 ms is 1.6 units; whole units only, so one unit.
    advance_motion(&map, &mut pos, MoveDirection::Right, &Speed(100), 16);
    assert_eq!(pos, Vec3::new(1, 0, 5));
}

#[test]
fn snap_moving_right() {
    let mut map = Level::new(4, 4);
    map.set_wall(2, 0);
    let mut pos = Vec3::new(0, 0, 5);
    // Candidate x is 40: its right edge (71) enters column 2, which is
    // blocked, so x snaps to the left edge of column 1 and Z zeroes.
    advance_motion(&map, &mut pos, MoveDirection::Right, &Speed(40), 1000);
    assert_eq!(pos, Vec3::new(32, 0, 0));
}

#[test]
fn snap_moving_left() {
    let mut map = Level::new(4, 4);
    map.set_wall(0, 0);
    let mut pos = Vec3::new(64, 0, 0);
    // Candidate x is 24: its left edge is in blocked column 0, so x snaps to
    // the left edge of column 1.
    advance_motion(&map, &mut pos, MoveDirection::Left, &Speed(40), 1000);
    assert_eq!(pos, Vec3::new(32, 0, 0));
}

#[test]
fn snap_moving_up() {
    let mut map = Level::new(4, 4);
    map.set_wall(0, 0);
    let mut pos = Vec3::new(0, -64, 0);
    // Candidate y is -24: the top edge reaches row 0, which is blocked, so y
    // snaps to the top of row 1.
    advance_motion(&map, &mut pos, MoveDirection::Up, &Speed(40), 1000);
    assert_eq!(pos, Vec3::new(0, -32, 0));
}

#[test]
fn snap_moving_down() {
    let mut map = Level::new(4, 4);
    map.set_wall(0, 3);
    let mut pos = Vec3::new(0, -32, 0);
    // Candidate y is -72: the bottom edge reaches row 3, which is blocked, so
    // y snaps to the top of row 2.
    advance_motion(&map, &mut pos, MoveDirection::Down, &Speed(40), 1000);
    assert_eq!(pos, Vec3::new(0, -64, 0));
}

#[test]
fn snap_keeps_perpendicular_axis() {
    let mut map = Level::new(4, 4);
    map.set_wall(2, 0);
    let mut pos = Vec3::new(0, -8, 0);
    // Blocked on the right: x snaps, but the off-grid y keeps its candidate
    // value; no perpendicular correction happens.
    advance_motion(&map, &mut pos, MoveDirection::Right, &Speed(40), 1000);
    assert_eq!(pos, Vec3::new(32, -8, 0));
}

#[test]
fn checked_motion_matches_plain_motion() {
    let mut map = Level::new(4, 4);
    map.set_wall(2, 0);
    let mut pos = Vec3::new(0, 0, 5);
    let ok = advance_motion_checked(&map, &mut pos, MoveDirection::Right, &Speed(40), 1000);
    assert!(ok);
    assert_eq!(pos, Vec3::new(32, 0, 0));
}

#[test]
fn out_of_bounds_probe_is_refused() {
    let map = Level::new(2, 2);
    let mut pos = Vec3::new(0, 0, 0);
    // 100000 units/s for 1 s shoots the candidate far off the 2x2 map: the
    // tick is refused and the position stays put.
    let ok = advance_motion_checked(&map, &mut pos, MoveDirection::Right, &Speed(100_000), 1000);
    assert!(!ok);
    assert_eq!(pos, Vec3::new(0, 0, 0));
}
