use pongrs::deflection::{bounce_velocity, BALL_VELOCITY};

#[test]
fn bounce_off_paddle_below_and_left() {
    // ball center (100, 300), paddle center (90, 310), incoming speed 17
    let v = bounce_velocity((100, 300), (90, 310), (-17, 0));
    assert_eq!(v, (17, -3));
    assert!(v.0 > 0);
    let sq = v.0 * v.0 + v.1 * v.1;
    assert!(16 * 16 <= sq && sq <= 18 * 18);
}

#[test]
fn bounce_exact_values() {
    assert_eq!(bounce_velocity((1, 10), (0, 0), (-17, 0)), (8, 15));
    assert_eq!(bounce_velocity((2, -30), (0, 0), (-17, 0)), (5, -16));
    assert_eq!(bounce_velocity((0, 0), (2, 30), (17, 0)), (-5, -16));
    assert_eq!(bounce_velocity((3, 0), (0, 0), (-17, 0)), (17, 0));
    assert_eq!(bounce_velocity((-3, 0), (0, 0), (17, 0)), (-17, 0));
}

#[test]
fn bounce_straight_above_the_center_is_vertical() {
    assert_eq!(bounce_velocity((5, 20), (5, 0), (-17, 0)), (0, 17));
    assert_eq!(bounce_velocity((5, -20), (5, 0), (17, 4)), (0, -17));
}

#[test]
fn bounce_with_coinciding_centers_reverses_horizontally() {
    assert_eq!(bounce_velocity((5, 5), (5, 5), (10, 3)), (-BALL_VELOCITY, 0));
    assert_eq!(bounce_velocity((5, 5), (5, 5), (-4, 3)), (BALL_VELOCITY, 0));
    assert_eq!(bounce_velocity((5, 5), (5, 5), (0, 0)), (BALL_VELOCITY, 0));
}

#[test]
fn bounce_speed_stays_near_serve_speed() {
    for dx in -40i64..=40 {
        for dy in -90i64..=90 {
            let v = bounce_velocity((dx, dy), (0, 0), (-17, 0));
            let sq = v.0 * v.0 + v.1 * v.1;
            assert!(16 * 16 <= sq && sq <= 18 * 18, "offset ({}, {}) gave {:?}", dx, dy, v);
            assert!(v.0 == 0 || (v.0 > 0) == (dx > 0) || (dx == 0 && dy == 0));
            assert!(v.1 == 0 || (v.1 > 0) == (dy > 0));
        }
    }
}

#[test]
fn bounce_at_far_offsets() {
    let far = 0x1_0000_0000i64;
    let v = bounce_velocity((far, far), (-far, -far), (-17, 0));
    assert_eq!(v, (17, 3));
    let v = bounce_velocity((-far, far), (far, -far), (-17, 0));
    assert_eq!(v, (-17, 3));
}
