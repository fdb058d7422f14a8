use bevman::camera::{follow_camera, CameraTarget};
use bevman::level::Level;
use bevman::motion::advance_motion;
use bevman::player::{
    apply_direction_change, drain_input, GameKey, KeyEvent, MoveDirection, NextDirection, Speed,
};
use bevman::vec3::Vec3;

/// A 5x3 room whose border cells are all walls; only row 1, columns 1..=3,
/// is free floor.
fn bordered_room() -> Level {
    let mut map = Level::new(5, 3);
    for x in 0..5 {
        map.set_wall(x, 0);
        map.set_wall(x, 2);
    }
    map.set_wall(0, 1);
    map.set_wall(4, 1);
    map
}

#[test]
fn two_ticks_in_engine_order() {
    let map = bordered_room();
    let speed = Speed(32);
    let target = CameraTarget::new(-50, 50, -50, 50, 1, 5);

    let mut pos = Vec3::new(48, -32, 0);
    let mut dir = MoveDirection::Right;
    let mut next = NextDirection::default();
    let mut cam = Vec3::new(0, 0, 0);

    // Tick one: W is pressed, but at x = 48 the player is off-grid, so the
    // turn stays queued and the player keeps moving right (32 units/s for
    // half a second is 16 units).
    let events = vec![KeyEvent { pressed: true, key: GameKey::W }];
    drain_input(&events, &mut next);
    apply_direction_change(&pos, &mut dir, &mut next);
    assert_eq!(dir, MoveDirection::Right);
    assert_eq!(next.peek(), Some(MoveDirection::Up));
    advance_motion(&map, &mut pos, dir, &speed, 500);
    assert_eq!(pos, Vec3::new(64, -32, 0));
    follow_camera(&mut cam, &pos, &target);
    // The box spans x in [14, 114]; the gap of 14 eases by 14/5 = 2.
    assert_eq!(cam, Vec3::new(2, 0, 0));

    // Tick two: no new events; at x = 64 the player is grid-aligned, the
    // queued turn applies, and the move up runs straight into the top border,
    // snapping y back to the top of row 1.
    let no_events: Vec<KeyEvent> = Vec::new();
    drain_input(&no_events, &mut next);
    apply_direction_change(&pos, &mut dir, &mut next);
    assert_eq!(dir, MoveDirection::Up);
    assert_eq!(next.peek(), None);
    advance_motion(&map, &mut pos, dir, &speed, 500);
    assert_eq!(pos, Vec3::new(64, -32, 0));
    follow_camera(&mut cam, &pos, &target);
    assert_eq!(cam, Vec3::new(4, 0, 0));
}
