use bevman::camera::{follow_camera, CameraTarget};
use bevman::vec3::Vec3;

#[test]
fn eases_toward_box_without_overshoot() {
    // The canonical player box: 50 units each way, easing strength 1/5 (0.2).
    let target = CameraTarget::new(-50, 50, -50, 50, 1, 5);
    let subject = Vec3::new(0, 0, 0);
    let mut cam = Vec3::new(200, 0, 7);

    // First tick: clamped point is 50, gap 150, step 150/5 = 30.
    follow_camera(&mut cam, &subject, &target);
    assert_eq!(cam.x, 170);
    assert_eq!(cam.y, 0);
    assert_eq!(cam.z, 7);

    let mut prev_gap: i64 = cam.x - 50;
    for _ in 0..100 {
        follow_camera(&mut cam, &subject, &target);
        let gap: i64 = cam.x - 50;
        assert!(gap >= 0); // never overshoots the box edge
        assert!(gap <= prev_gap); // never moves away again
        prev_gap = gap;
    }
    // Whole-unit easing stalls once the gap times 1 drops under 5.
    assert!(cam.x <= 54);
    assert_eq!(cam.z, 7);
}

#[test]
fn camera_inside_box_stays_put() {
    let target = CameraTarget::new(-50, 50, -50, 50, 1, 5);
    let subject = Vec3::new(0, 0, 0);
    let mut cam = Vec3::new(10, -10, 3);
    follow_camera(&mut cam, &subject, &target);
    assert_eq!(cam, Vec3::new(10, -10, 3));
}

#[test]
fn camera_below_box_moves_up() {
    let target = CameraTarget::new(-50, 50, -50, 50, 1, 5);
    let subject = Vec3::new(0, 0, 0);
    let mut cam = Vec3::new(0, -200, 0);
    // Clamped point is -50, gap 150, step 30.
    follow_camera(&mut cam, &subject, &target);
    assert_eq!(cam.y, -170);
    assert_eq!(cam.x, 0);
}

#[test]
fn box_follows_the_subject() {
    let target = CameraTarget::new(-50, 50, -50, 50, 1, 5);
    let subject = Vec3::new(1000, 0, 0);
    let mut cam = Vec3::new(0, 0, 0);
    // Box around the subject spans x in [950, 1050]: gap 950, step 190.
    follow_camera(&mut cam, &subject, &target);
    assert_eq!(cam.x, 190);
}
