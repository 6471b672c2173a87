use shapes_interop::motion::Motion;
use shapes_interop::velocity::{draw_speed, draw_velocity, speed_bounds};

fn can_be_drawn(v: i32) -> bool {
    (1..5).contains(&v) || (-5..-1).contains(&v)
}

#[test]
fn each_direction_has_its_interval() {
    assert_eq!(speed_bounds(true), (1, 5));
    assert_eq!(speed_bounds(false), (-5, -1));
}

#[test]
fn a_drawn_speed_is_never_zero() {
    for _ in 0..2000 {
        let v = draw_speed();
        assert_ne!(v, 0);
        assert!(can_be_drawn(v), "drew {}", v);
    }
}

#[test]
fn the_lottery_draws_in_both_directions_and_at_several_speeds() {
    let mut seen = [false; 11];
    for _ in 0..4000 {
        let v = draw_speed();
        assert!(can_be_drawn(v), "drew {}", v);
        seen[(v + 5) as usize] = true;
    }
    // with 4000 draws every one of the eight outcomes has turned up
    for v in [-5, -4, -3, -2, 1, 2, 3, 4] {
        assert!(seen[(v + 5) as usize], "never drew {}", v);
    }
    for v in [-1, 0, 5] {
        assert!(!seen[(v + 5) as usize]);
    }
}

#[test]
fn a_drawn_velocity_starts_a_motion() {
    for _ in 0..200 {
        let (xv, yv) = draw_velocity();
        assert!(can_be_drawn(xv) && can_be_drawn(yv));
        let motion = Motion::start(String::from("GREEN"), xv, yv).unwrap();
        assert_eq!(motion.velocity(), (xv, yv));
    }
}
