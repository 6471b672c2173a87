//! The lottery that gives the published shape its first velocity.

use rand::Rng;
use vstd::prelude::*;

verus! {

/// Whether `v` can come out of the lottery for one velocity component:
/// one of 1, 2, 3, 4 forwards or -5, -4, -3, -2 backwards. Zero cannot.
pub open spec fn is_drawn_speed(v: int) -> bool {
    1 <= v < 5 || -5 <= v < -1
}

/// The half-open interval `[low, high)` that one direction draws from.
pub open spec fn speed_interval(forwards: bool) -> (int, int) {
    if forwards {
        (1, 5)
    } else {
        (-5, -1)
    }
}

/// `rand::random::<bool>()`: one random boolean from the thread's generator.
/// Nothing is claimed of the outcome.
#[verifier::external_body]
fn toss() -> bool {
    rand::random()
}

/// `rand::Rng::gen_range` on `rand::thread_rng()` with the half-open range
/// `low..high`. The call panics on an empty range, which `requires` leaves
/// out; the claim is that the number drawn lies in the range.
#[verifier::external_body]
fn pick_between(low: i32, high: i32) -> (picked: i32)
    requires
        low < high,
    ensures
        low <= picked < high,
{
    rand::thread_rng().gen_range(low..high)
}

/// The bounds of [`speed_interval`] as machine integers.
pub fn speed_bounds(forwards: bool) -> (bounds: (i32, i32))
    ensures
        (bounds.0 as int, bounds.1 as int) == speed_interval(forwards),
{
    if forwards {
        (1, 5)
    } else {
        (-5, -1)
    }
}

/// Draws one velocity component: first the direction, then a speed from that
/// direction's interval. Whatever is drawn, it is not zero.
pub fn draw_speed() -> (v: i32)
    ensures
        is_drawn_speed(v as int),
        v != 0,
{
    let bounds = speed_bounds(toss());
    pick_between(bounds.0, bounds.1)
}

/// Draws the velocity of a new shape, the x component first.
pub fn draw_velocity() -> (v: (i32, i32))
    ensures
        is_drawn_speed(v.0 as int),
        is_drawn_speed(v.1 as int),
{
    let xv: i32 = draw_speed();
    let yv: i32 = draw_speed();
    (xv, yv)
}

} // verus!
