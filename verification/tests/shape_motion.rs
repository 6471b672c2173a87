use shapes_interop::shape::{move_shape, Shape, DA_HEIGHT, DA_WIDTH};

fn blue(x: i32, y: i32, shapesize: i32) -> Shape {
    Shape { color: String::from("BLUE"), x, y, shapesize }
}

#[test]
fn arena_has_its_fixed_extent() {
    assert_eq!(DA_WIDTH, 240);
    assert_eq!(DA_HEIGHT, 270);
}

#[test]
fn corner_near_the_origin_reflects_both_axes() {
    let (moved, xv, yv) = move_shape(blue(1, 1, 20), -3, -3);
    assert_eq!(moved.x, 11);
    assert_eq!(moved.y, 11);
    assert_eq!(xv, 3);
    assert_eq!(yv, 3);
    assert_eq!(moved.shapesize, 20);
    assert_eq!(moved.color, "BLUE");
}

#[test]
fn free_step_only_moves() {
    let (moved, xv, yv) = move_shape(blue(120, 120, 20), 3, 3);
    assert_eq!(moved, blue(123, 123, 20));
    assert_eq!((xv, yv), (3, 3));
}

#[test]
fn far_corner_reflects_both_axes() {
    let (moved, xv, yv) = move_shape(blue(228, 258, 20), 3, 3);
    assert_eq!(moved, blue(229, 259, 20));
    assert_eq!((xv, yv), (-3, -3));
}

#[test]
fn landing_on_a_bound_is_no_collision() {
    let (moved, xv, yv) = move_shape(blue(226, 14, 20), 3, -3);
    assert_eq!(moved, blue(229, 11, 20));
    assert_eq!((xv, yv), (3, -3));
}

#[test]
fn one_step_past_a_bound_is_a_collision() {
    let (moved, xv, yv) = move_shape(blue(227, 13, 20), 3, -3);
    assert_eq!(moved, blue(229, 11, 20));
    assert_eq!((xv, yv), (-3, 3));
}

#[test]
fn only_the_axis_that_hits_is_reflected() {
    let (moved, xv, yv) = move_shape(blue(12, 100, 20), -4, 2);
    assert_eq!(moved, blue(11, 102, 20));
    assert_eq!((xv, yv), (4, 2));

    let (moved, xv, yv) = move_shape(blue(100, 258, 20), -4, 2);
    assert_eq!(moved, blue(96, 259, 20));
    assert_eq!((xv, yv), (-4, -2));
}

#[test]
fn half_size_rounds_the_diameter_down() {
    // diameter 21: half is 21 / 2 + 1 = 11, as for diameter 20
    let (moved, _, _) = move_shape(blue(0, 0, 21), -1, -1);
    assert_eq!((moved.x, moved.y), (11, 11));
    // diameter 22: half is 12
    let (moved, _, _) = move_shape(blue(0, 0, 22), -1, -1);
    assert_eq!((moved.x, moved.y), (12, 12));
    // diameter 0: half is 1
    let (moved, xv, yv) = move_shape(blue(1, 1, 0), -1, 5);
    assert_eq!((moved.x, moved.y), (1, 6));
    assert_eq!((xv, yv), (1, 5));
}

#[test]
fn upper_bounds_differ_by_axis() {
    let (moved, xv, yv) = move_shape(blue(235, 235, 20), 4, 4);
    assert_eq!((moved.x, moved.y), (229, 239));
    assert_eq!((xv, yv), (-4, 4));
}

#[test]
fn a_shape_wider_than_the_arena_is_pinned_to_the_upper_bound() {
    // diameter 240: half is 121, the bounds of x are 121 and 119
    let (moved, xv, yv) = move_shape(blue(0, 130, 240), 1, 1);
    assert_eq!(moved.x, 119);
    assert_eq!(xv, -1);
    // the bounds of y, 121 and 149, are still in order
    assert_eq!(moved.y, 131);
    assert_eq!(yv, 1);

    let (moved, xv, _) = move_shape(blue(200, 130, 240), 1, 1);
    assert_eq!(moved.x, 119);
    assert_eq!(xv, -1);
}

#[test]
fn no_position_is_too_far_out() {
    let (moved, xv, yv) = move_shape(blue(i32::MAX, i32::MIN, 20), 1, -1);
    assert_eq!(moved, blue(229, 11, 20));
    assert_eq!((xv, yv), (-1, 1));

    let (moved, xv, yv) = move_shape(blue(i32::MIN, i32::MAX, 20), i32::MIN + 1, i32::MAX);
    assert_eq!(moved, blue(11, 259, 20));
    assert_eq!((xv, yv), (i32::MAX, -i32::MAX));

    let (moved, xv, yv) = move_shape(blue(i32::MIN, i32::MAX, 20), i32::MAX, -i32::MAX);
    assert_eq!(moved, blue(11, 11, 20));
    assert_eq!((xv, yv), (-i32::MAX, i32::MAX));

    // a long step that ends inside the arena is an ordinary step
    let far = 2_000_000_000;
    let (moved, xv, yv) = move_shape(blue(-far, far + 100, 20), far + 100, -far);
    assert_eq!(moved, blue(100, 100, 20));
    assert_eq!((xv, yv), (far + 100, -far));
}

#[test]
fn zero_velocity_on_a_wall_stays_put() {
    let (moved, xv, yv) = move_shape(blue(0, 300, 20), 0, 0);
    assert_eq!((moved.x, moved.y), (11, 259));
    assert_eq!((xv, yv), (0, 0));
}

#[test]
fn the_same_inputs_give_the_same_outputs() {
    for x in [-5, 0, 11, 120, 229, 240] {
        for v in [-5, -1, 1, 4] {
            let first = move_shape(blue(x, 270 - x, 21), v, -v);
            let second = move_shape(blue(x, 270 - x, 21), v, -v);
            assert_eq!(first, second);
        }
    }
}

#[test]
fn every_step_ends_inside_the_arena() {
    for shapesize in [0, 1, 20, 21, 99, 238, 239] {
        let half = shapesize / 2 + 1;
        for x in (-30..300).step_by(7) {
            for y in (-30..300).step_by(11) {
                for (xv, yv) in [(1, 1), (-1, 4), (3, -5), (-4, -2), (17, -23)] {
                    let (moved, nxv, nyv) = move_shape(blue(x, y, shapesize), xv, yv);
                    assert!(half <= moved.x && moved.x <= DA_WIDTH - half);
                    assert!(half <= moved.y && moved.y <= DA_HEIGHT - half);
                    let x_left = x + xv < half || x + xv > DA_WIDTH - half;
                    let y_left = y + yv < half || y + yv > DA_HEIGHT - half;
                    assert_eq!(nxv, if x_left { -xv } else { xv });
                    assert_eq!(nyv, if y_left { -yv } else { yv });
                    assert_eq!(moved.x == x + xv, !x_left);
                    assert_eq!(moved.y == y + yv, !y_left);
                    assert_eq!(moved.shapesize, shapesize);
                    assert_eq!(moved.color, "BLUE");
                }
            }
        }
    }
}

#[test]
fn the_key_of_a_shape_is_its_color() {
    let s = Shape { color: String::from("RED"), x: 5, y: 6, shapesize: 7 };
    assert_eq!(s.get_key(), "RED");
    let copy = s.clone();
    assert_eq!(copy, s);
    assert_eq!(copy.get_key(), s.get_key());
}
