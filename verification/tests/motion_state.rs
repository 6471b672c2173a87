use shapes_interop::motion::{Motion, MotionError, INITIAL_SIZE};
use shapes_interop::shape::{Shape, DA_HEIGHT, DA_WIDTH};

fn blue_shape(x: i32, y: i32, shapesize: i32) -> Shape {
    Shape { color: String::from("BLUE"), x, y, shapesize }
}

#[test]
fn a_publisher_starts_at_the_origin_with_the_initial_size() {
    assert_eq!(INITIAL_SIZE, 21);
    let motion = Motion::start(String::from("BLUE"), 3, -2).unwrap();
    assert_eq!(motion.shape(), &blue_shape(0, 0, 21));
    assert_eq!(motion.velocity(), (3, -2));
}

#[test]
fn a_zero_velocity_component_is_turned_down() {
    assert_eq!(Motion::new(blue_shape(5, 5, 20), 0, 3).unwrap_err(), MotionError::ZeroVelocity);
    assert_eq!(Motion::new(blue_shape(5, 5, 20), 3, 0).unwrap_err(), MotionError::ZeroVelocity);
    assert_eq!(Motion::new(blue_shape(5, 5, 20), 0, 0).unwrap_err(), MotionError::ZeroVelocity);
    assert_eq!(Motion::start(String::from("BLUE"), 0, 1).unwrap_err(), MotionError::ZeroVelocity);
}

#[test]
fn a_negative_size_is_turned_down() {
    assert_eq!(Motion::new(blue_shape(5, 5, -1), 1, 1).unwrap_err(), MotionError::NegativeSize);
    assert!(Motion::new(blue_shape(5, 5, 0), 1, 1).is_ok());
}

#[test]
fn a_velocity_without_a_negation_is_turned_down() {
    assert_eq!(Motion::new(blue_shape(5, 5, 20), i32::MIN, 1).unwrap_err(), MotionError::NoWayBack);
    assert_eq!(Motion::new(blue_shape(5, 5, 20), 1, i32::MIN).unwrap_err(), MotionError::NoWayBack);
    assert!(Motion::new(blue_shape(5, 5, 20), i32::MIN + 1, i32::MAX).is_ok());
    assert!(Motion::new(blue_shape(i32::MAX, i32::MIN, i32::MAX), 1, 1).is_ok());
}

#[test]
fn the_first_fault_found_is_the_one_named() {
    assert_eq!(Motion::new(blue_shape(5, 5, -3), 0, i32::MIN).unwrap_err(), MotionError::ZeroVelocity);
    assert_eq!(Motion::new(blue_shape(5, 5, -3), 1, i32::MIN).unwrap_err(), MotionError::NegativeSize);
    assert_eq!(Motion::new(blue_shape(5, 5, 3), 1, i32::MIN).unwrap_err(), MotionError::NoWayBack);
}

#[test]
fn a_tick_is_one_step_of_the_shape() {
    let motion = Motion::start(String::from("BLUE"), 3, -4).unwrap();
    let motion = motion.tick();
    assert_eq!(motion.shape(), &blue_shape(11, 11, 21));
    assert_eq!(motion.velocity(), (-3, 4));
    let motion = motion.tick();
    assert_eq!(motion.shape(), &blue_shape(11, 15, 21));
    assert_eq!(motion.velocity(), (3, 4));
    let motion = motion.tick();
    assert_eq!(motion.shape(), &blue_shape(14, 19, 21));
    assert_eq!(motion.velocity(), (3, 4));
}

#[test]
fn a_motion_stays_in_the_arena_and_never_stops() {
    for (xv, yv) in [(1, 1), (4, -5), (-2, 3), (-5, -5), (4, 4)] {
        let mut motion = Motion::start(String::from("BLUE"), xv, yv).unwrap();
        for _ in 0..5000 {
            motion = motion.tick();
            let s = motion.shape();
            assert!(11 <= s.x && s.x <= DA_WIDTH - 11);
            assert!(11 <= s.y && s.y <= DA_HEIGHT - 11);
            assert_eq!(s.shapesize, 21);
            assert_eq!(s.color, "BLUE");
            let (nxv, nyv) = motion.velocity();
            assert_eq!(nxv.abs(), xv.abs());
            assert_eq!(nyv.abs(), yv.abs());
        }
    }
}

#[test]
fn a_motion_from_the_far_end_of_the_integers_comes_back() {
    let motion = Motion::new(blue_shape(i32::MAX, i32::MIN, 21), i32::MAX, i32::MIN + 1).unwrap();
    let motion = motion.tick();
    assert_eq!(motion.shape(), &blue_shape(DA_WIDTH - 11, 11, 21));
    assert_eq!(motion.velocity(), (-i32::MAX, i32::MAX));
    let motion = motion.tick();
    assert_eq!(motion.shape(), &blue_shape(11, DA_HEIGHT - 11, 21));
    assert_eq!(motion.velocity(), (i32::MAX, -i32::MAX));
}

#[test]
fn the_largest_shape_is_pinned_to_the_upper_bounds() {
    // half is 2^30; the bounds are inverted, so the upper bound wins
    let half = 1 << 30;
    let motion = Motion::new(blue_shape(0, 0, i32::MAX), 1, -1).unwrap();
    let motion = motion.tick();
    assert_eq!(motion.shape().x, DA_WIDTH - half);
    assert_eq!(motion.shape().y, DA_HEIGHT - half);
    assert_eq!(motion.velocity(), (-1, 1));
    let motion = motion.tick();
    assert_eq!(motion.shape().x, DA_WIDTH - half);
    assert_eq!(motion.shape().y, DA_HEIGHT - half);
    assert_eq!(motion.velocity(), (1, -1));
}
