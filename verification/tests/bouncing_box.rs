use landmark_canvas::bouncing_box::{bounce_step, BOX_SIZE, START_POSITION, START_VELOCITY};

#[test]
fn box_moves_by_its_velocity() {
    assert_eq!(bounce_step(50, 2, 1140), (52, 2));
    assert_eq!(bounce_step(52, -2, 700), (50, -2));
}

#[test]
fn box_turns_at_the_far_edge() {
    assert_eq!(bounce_step(1088, 2, 1140), (1090, -2));
    assert_eq!(bounce_step(648, 2, 700), (650, -2));
}

#[test]
fn box_turns_at_the_near_edge() {
    assert_eq!(bounce_step(2, -2, 1140), (0, 2));
    assert_eq!(bounce_step(1, -2, 700), (-1, 2));
}

#[test]
fn box_on_a_tiny_canvas_turns_every_frame() {
    assert_eq!(bounce_step(0, 2, 40), (2, -2));
}

#[test]
fn box_stays_on_the_canvas() {
    for (extent, far) in [(1140u32, 1090i64), (700, 650)] {
        let (mut pos, mut vel) = (START_POSITION, START_VELOCITY);
        for _ in 0..5000 {
            let (p, v) = bounce_step(pos, vel, extent);
            pos = p;
            vel = v;
            assert!(0 <= pos && pos <= far);
            assert!(vel == 2 || vel == -2);
        }
        assert_eq!(far, extent as i64 - BOX_SIZE);
    }
}
