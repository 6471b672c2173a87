//! The shape that travels over the topic, and its motion inside the arena.

use vstd::prelude::*;

verus! {

/// Width of the arena the shape moves in.
pub const DA_WIDTH: i32 = 240;

/// Height of the arena the shape moves in.
pub const DA_HEIGHT: i32 = 270;

/// One shape update. `color` is the key of the logical shape instance.
#[derive(Debug, PartialEq, Eq)]
pub struct Shape {
    pub color: String,
    pub x: i32,
    pub y: i32,
    pub shapesize: i32,
}

/// Mathematical value of a [`Shape`].
pub struct ShapeView {
    pub color: Seq<char>,
    pub x: int,
    pub y: int,
    pub shapesize: int,
}

impl View for Shape {
    type V = ShapeView;

    open spec fn view(&self) -> ShapeView {
        ShapeView {
            color: self.color@,
            x: self.x as int,
            y: self.y as int,
            shapesize: self.shapesize as int,
        }
    }
}

impl Clone for Shape {
    fn clone(&self) -> (copy: Shape)
        ensures
            copy == *self,
    {
        Shape { color: self.color.clone(), x: self.x, y: self.y, shapesize: self.shapesize }
    }
}

impl Shape {
    /// The key that correlates updates and disposals of one shape: its color.
    pub fn get_key(&self) -> (key: String)
        ensures
            key == self.color,
    {
        self.color.clone()
    }
}

/// Distance that the centre of a shape of diameter `shapesize` keeps from
/// every wall.
pub open spec fn half_size(shapesize: int) -> int {
    shapesize / 2 + 1
}

/// Whether moving from `pos` by `vel` leaves the interval
/// `[half, extent - half]` of one axis.
pub open spec fn leaves_axis(pos: int, vel: int, half: int, extent: int) -> bool {
    pos + vel < half || pos + vel > extent - half
}

/// Position on one axis after one step: the tentative position `pos + vel`,
/// raised to the lower bound `half` and then lowered to the upper bound
/// `extent - half`. Where the bounds are inverted (`half > extent - half`)
/// the upper bound therefore wins.
pub open spec fn next_position(pos: int, vel: int, half: int, extent: int) -> int {
    let raised = if pos + vel < half { half } else { pos + vel };
    if raised > extent - half { extent - half } else { raised }
}

/// Velocity on one axis after one step: negated exactly when the tentative
/// position left the axis interval.
pub open spec fn next_velocity(pos: int, vel: int, half: int, extent: int) -> int {
    if leaves_axis(pos, vel, half, extent) { -vel } else { vel }
}

/// One step of the motion model: the shape moves by its velocity, and each
/// axis is clamped and reflected on its own.
pub open spec fn advance(shape: ShapeView, xv: int, yv: int) -> (ShapeView, int, int) {
    let half = half_size(shape.shapesize);
    (
        ShapeView {
            color: shape.color,
            x: next_position(shape.x, xv, half, DA_WIDTH as int),
            y: next_position(shape.y, yv, half, DA_HEIGHT as int),
            shapesize: shape.shapesize,
        },
        next_velocity(shape.x, xv, half, DA_WIDTH as int),
        next_velocity(shape.y, yv, half, DA_HEIGHT as int),
    )
}

/// The inputs of one step: the size is not negative, and each velocity has
/// a negation in `i32`, which a velocity of `i32::MIN` has not (and such a
/// velocity would be reflected at once, wherever the shape is).
pub open spec fn can_advance(shape: ShapeView, xv: int, yv: int) -> bool {
    &&& 0 <= shape.shapesize
    &&& i32::MIN < xv
    &&& i32::MIN < yv
}

/// One axis of a step: the position and the velocity after it.
fn move_axis(pos: i32, vel: i32, half: i32, extent: i32) -> (moved: (i32, i32))
    requires
        0 < half,
        0 <= extent,
        i32::MIN < vel,
    ensures
        moved.0 == next_position(pos as int, vel as int, half as int, extent as int),
        moved.1 == next_velocity(pos as int, vel as int, half as int, extent as int),
{
    let tentative: i64 = pos as i64 + vel as i64;
    let low: i64 = half as i64;
    let high: i64 = extent as i64 - half as i64;
    let raised: i64 = if tentative < low {
        low
    } else {
        tentative
    };
    let placed: i64 = if raised > high {
        high
    } else {
        raised
    };
    if tentative < low || tentative > high {
        (placed as i32, -vel)
    } else {
        (placed as i32, vel)
    }
}

/// The relation between the inputs of one step and its outcome: the outcome
/// is the value of [`advance`], and the color is the very string handed in.
pub open spec fn moves_to(shape: Shape, xv: i32, yv: i32, moved: (Shape, i32, i32)) -> bool {
    &&& (moved.0@, moved.1 as int, moved.2 as int) == advance(shape@, xv as int, yv as int)
    &&& moved.0.color == shape.color
}

/// Moves `shape` by one step of velocity `(xv, yv)` and reflects it off the
/// walls of the arena. Returns the moved shape and the velocity to use for
/// the next step.
///
/// Each axis is handled on its own: the tentative position is raised to
/// the lower bound and then lowered to the upper bound, and the velocity
/// changes sign if either happened. For a shape too large for the arena
/// the bounds are inverted, and the shape is pinned to the upper one. The
/// tentative position is formed in 64 bits, so no position is too far out
/// to be brought back.
pub fn move_shape(shape: Shape, xv: i32, yv: i32) -> (moved: (Shape, i32, i32))
    requires
        can_advance(shape@, xv as int, yv as int),
    ensures
        moves_to(shape, xv, yv, moved),
        moved.0.shapesize == shape.shapesize,
        2 * half_size(shape.shapesize as int) <= DA_WIDTH ==> half_size(shape.shapesize as int)
            <= moved.0.x <= DA_WIDTH - half_size(shape.shapesize as int),
        2 * half_size(shape.shapesize as int) <= DA_HEIGHT ==> half_size(shape.shapesize as int)
            <= moved.0.y <= DA_HEIGHT - half_size(shape.shapesize as int),
        moved.1 == next_velocity(
            shape.x as int,
            xv as int,
            half_size(shape.shapesize as int),
            DA_WIDTH as int,
        ),
        moved.2 == next_velocity(
            shape.y as int,
            yv as int,
            half_size(shape.shapesize as int),
            DA_HEIGHT as int,
        ),
{
    let half_size: i32 = shape.shapesize / 2 + 1;
    let along = move_axis(shape.x, xv, half_size, DA_WIDTH);
    let across = move_axis(shape.y, yv, half_size, DA_HEIGHT);
    (
        Shape { color: shape.color, x: along.0, y: across.0, shapesize: shape.shapesize },
        along.1,
        across.1,
    )
}

/// On an axis whose bounds are in order (`2 * half <= extent`), the position
/// after a step lies within the bounds, whatever the position before.
pub proof fn lemma_position_within_bounds(pos: int, vel: int, half: int, extent: int)
    requires
        2 * half <= extent,
    ensures
        half <= next_position(pos, vel, half, extent) <= extent - half,
{
}

/// After one step the centre of the shape keeps `half_size` from the walls,
/// on each axis of the arena that is wide enough for the shape.
pub proof fn lemma_advance_stays_inside(shape: ShapeView, xv: int, yv: int)
    ensures
        2 * half_size(shape.shapesize) <= DA_WIDTH ==> half_size(shape.shapesize) <= advance(
            shape,
            xv,
            yv,
        ).0.x <= DA_WIDTH - half_size(shape.shapesize),
        2 * half_size(shape.shapesize) <= DA_HEIGHT ==> half_size(shape.shapesize) <= advance(
            shape,
            xv,
            yv,
        ).0.y <= DA_HEIGHT - half_size(shape.shapesize),
{
}

/// The velocity of an axis changes sign exactly when the step would have
/// carried the shape out of that axis's bounds, and is kept otherwise. On an
/// axis whose bounds are in order, a kept velocity is the same as a step
/// that was not cut short.
pub proof fn lemma_velocity_flips_with_the_bounce(pos: int, vel: int, half: int, extent: int)
    ensures
        leaves_axis(pos, vel, half, extent) ==> next_velocity(pos, vel, half, extent) == -vel,
        !leaves_axis(pos, vel, half, extent) ==> next_velocity(pos, vel, half, extent) == vel
            && next_position(pos, vel, half, extent) == pos + vel,
        2 * half <= extent && vel != 0 ==> (next_velocity(pos, vel, half, extent) == vel
            <==> next_position(pos, vel, half, extent) == pos + vel),
{
}

/// A step reflects each axis on its own: what happens on one axis does not
/// depend on the position or velocity of the other.
pub proof fn lemma_axes_are_independent(shape: ShapeView, xv: int, yv: int, other: int, ov: int)
    ensures
        advance(shape, xv, yv).0.x == advance(ShapeView { y: other, ..shape }, xv, ov).0.x,
        advance(shape, xv, yv).1 == advance(ShapeView { y: other, ..shape }, xv, ov).1,
        advance(shape, xv, yv).0.y == advance(ShapeView { x: other, ..shape }, ov, yv).0.y,
        advance(shape, xv, yv).2 == advance(ShapeView { x: other, ..shape }, ov, yv).2,
{
}

/// A step leaves color and size as they were.
pub proof fn lemma_advance_keeps_identity(shape: ShapeView, xv: int, yv: int)
    ensures
        advance(shape, xv, yv).0.color == shape.color,
        advance(shape, xv, yv).0.shapesize == shape.shapesize,
{
}

/// The step is a function of its inputs: any two outcomes of [`move_shape`]
/// on the same shape and velocity are equal in every field.
pub proof fn lemma_move_is_deterministic(
    shape: Shape,
    xv: i32,
    yv: i32,
    first: (Shape, i32, i32),
    second: (Shape, i32, i32),
)
    requires
        moves_to(shape, xv, yv, first),
        moves_to(shape, xv, yv, second),
    ensures
        first == second,
{
}

} // verus!
