//! The state of the publisher: a shape together with its velocity.

use crate::shape::{advance, can_advance, move_shape, Shape, ShapeView};
use crate::velocity::is_drawn_speed;
use vstd::prelude::*;

verus! {

/// Size of the shape that a publisher starts with.
pub const INITIAL_SIZE: i32 = 21;

/// A shape in motion. Neither velocity component is ever zero.
#[derive(Debug)]
pub struct Motion {
    shape: Shape,
    xv: i32,
    yv: i32,
}

/// Mathematical value of a [`Motion`].
pub struct MotionView {
    pub shape: ShapeView,
    pub xv: int,
    pub yv: int,
}

/// Why a shape and a velocity cannot be put in motion.
#[derive(Debug, PartialEq, Eq, Clone, Copy)]
pub enum MotionError {
    /// A velocity component is zero.
    ZeroVelocity,
    /// The size of the shape is negative.
    NegativeSize,
    /// A velocity component is `i32::MIN`, which no reflection can turn
    /// round.
    NoWayBack,
}

/// Whether `v` and its negation are both values of `i32`.
pub open spec fn reversible(v: int) -> bool {
    i32::MIN < v <= i32::MAX
}

/// The motions that can go on forever: no zero velocity, no negative size,
/// and no velocity without a negation.
pub open spec fn steady(m: MotionView) -> bool {
    &&& m.xv != 0
    &&& m.yv != 0
    &&& 0 <= m.shape.shapesize
    &&& reversible(m.xv)
    &&& reversible(m.yv)
}

/// What [`Motion::new`] answers for a shape and a velocity.
pub open spec fn motion_verdict(shape: ShapeView, xv: int, yv: int) -> Result<
    MotionView,
    MotionError,
> {
    if xv == 0 || yv == 0 {
        Err(MotionError::ZeroVelocity)
    } else if shape.shapesize < 0 {
        Err(MotionError::NegativeSize)
    } else if !reversible(xv) || !reversible(yv) {
        Err(MotionError::NoWayBack)
    } else {
        Ok(MotionView { shape, xv, yv })
    }
}

/// Mathematical value of what a constructor of [`Motion`] answers.
pub open spec fn answer_view(made: Result<Motion, MotionError>) -> Result<MotionView, MotionError> {
    match made {
        Ok(m) => Ok(m@),
        Err(e) => Err(e),
    }
}

/// The motion one step later.
pub open spec fn advance_motion(m: MotionView) -> MotionView {
    let next = advance(m.shape, m.xv, m.yv);
    MotionView { shape: next.0, xv: next.1, yv: next.2 }
}

/// The shape that a publisher of `color` starts with: at the origin, of the
/// initial size.
pub open spec fn initial_shape(color: Seq<char>) -> ShapeView {
    ShapeView { color, x: 0, y: 0, shapesize: INITIAL_SIZE as int }
}

impl View for Motion {
    type V = MotionView;

    closed spec fn view(&self) -> MotionView {
        MotionView { shape: self.shape@, xv: self.xv as int, yv: self.yv as int }
    }
}

impl Motion {
    #[verifier::type_invariant]
    spec fn inv(self) -> bool {
        steady(self@)
    }

    /// Puts `shape` in motion with velocity `(xv, yv)`, or says why not.
    pub fn new(shape: Shape, xv: i32, yv: i32) -> (made: Result<Motion, MotionError>)
        ensures
            answer_view(made) == motion_verdict(shape@, xv as int, yv as int),
            made matches Ok(m) ==> steady(m@),
    {
        if xv == 0 || yv == 0 {
            Err(MotionError::ZeroVelocity)
        } else if shape.shapesize < 0 {
            Err(MotionError::NegativeSize)
        } else if xv == i32::MIN || yv == i32::MIN {
            Err(MotionError::NoWayBack)
        } else {
            Ok(Motion { shape, xv, yv })
        }
    }

    /// The motion that a publisher of `color` starts with: the initial shape
    /// and the velocity drawn for it.
    pub fn start(color: String, xv: i32, yv: i32) -> (made: Result<Motion, MotionError>)
        ensures
            answer_view(made) == motion_verdict(initial_shape(color@), xv as int, yv as int),
            made matches Ok(m) ==> steady(m@),
            is_drawn_speed(xv as int) && is_drawn_speed(yv as int) ==> made is Ok,
    {
        Motion::new(Shape { color, x: 0, y: 0, shapesize: INITIAL_SIZE }, xv, yv)
    }

    /// The shape as it stands.
    pub fn shape(&self) -> (shape: &Shape)
        ensures
            shape@ == self@.shape,
    {
        &self.shape
    }

    /// The velocity as it stands, x component first.
    pub fn velocity(&self) -> (v: (i32, i32))
        ensures
            v.0 == self@.xv,
            v.1 == self@.yv,
            v.0 != 0,
            v.1 != 0,
    {
        proof {
            use_type_invariant(self);
        }
        (self.xv, self.yv)
    }

    /// Moves the shape by one step.
    pub fn tick(self) -> (next: Motion)
        ensures
            next@ == advance_motion(self@),
            steady(self@),
            steady(next@),
    {
        proof {
            use_type_invariant(&self);
        }
        let moved = move_shape(self.shape, self.xv, self.yv);
        Motion { shape: moved.0, xv: moved.1, yv: moved.2 }
    }
}

/// A steady motion can always take its next step in machine integers.
pub proof fn lemma_steady_can_advance(m: MotionView)
    requires
        steady(m),
    ensures
        can_advance(m.shape, m.xv, m.yv),
{
}

/// A steady motion stays steady: in particular its velocity never becomes
/// zero, however many walls it meets.
pub proof fn lemma_steady_is_kept(m: MotionView)
    requires
        steady(m),
    ensures
        steady(advance_motion(m)),
        advance_motion(m).xv == m.xv || advance_motion(m).xv == -m.xv,
        advance_motion(m).yv == m.yv || advance_motion(m).yv == -m.yv,
{
}

/// Every velocity that the lottery can draw puts the initial shape in
/// motion.
pub proof fn lemma_drawn_velocity_is_steady(color: Seq<char>, xv: int, yv: int)
    requires
        is_drawn_speed(xv),
        is_drawn_speed(yv),
    ensures
        motion_verdict(initial_shape(color), xv, yv) == Ok::<MotionView, MotionError>(
            MotionView { shape: initial_shape(color), xv, yv },
        ),
{
}

} // verus!
