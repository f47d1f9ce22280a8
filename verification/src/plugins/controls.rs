//! The player's controls: the pointer in the window is the hand on the steering wheel and
//! the foot on the accelerator.

use vstd::prelude::*;
use crate::car::dynamics::suspension::STEERING_WHEEL_DEGREES_RANGE;
use crate::fixed::{div_toward_zero, lemma_trunc_div_range, trunc_div, SCALE};

verus! {

/// Where the player holds the steering wheel and the accelerator.
#[derive(Clone, Copy, Debug, PartialEq, Eq, Structural)]
pub struct ControlsState {
    /// The angle of the steering wheel in degrees, from -450 to 450.
    pub steering_wheel_degrees: i32,
    /// How far the accelerator is pressed, from 0 to 1.
    pub accelerator: i32,
}

impl Default for ControlsState {
    fn default() -> (controls: ControlsState)
        ensures
            controls == (ControlsState { steering_wheel_degrees: 0, accelerator: 0 }),
    {
        ControlsState { steering_wheel_degrees: 0, accelerator: 0 }
    }
}

impl ControlsState {
    /// Whether the steering wheel is within its locks and the accelerator within its travel.
    pub open spec fn in_range(&self) -> bool {
        &&& -(STEERING_WHEEL_DEGREES_RANGE / 2) <= self.steering_wheel_degrees
            <= STEERING_WHEEL_DEGREES_RANGE / 2
        &&& 0 <= self.accelerator <= SCALE
    }
}

/// Whether the pointer at `(cursor_x, cursor_y)` lies in a window of `win_w` by `win_h`, and
/// the window has an area.
pub open spec fn pointer_in_window(cursor_x: int, cursor_y: int, win_w: int, win_h: int) -> bool {
    0 < win_w && 0 < win_h && 0 <= cursor_x <= win_w && 0 <= cursor_y <= win_h
}

/// The angle of the steering wheel for a pointer `cursor_x` across a window of width
/// `win_w`: from one lock at the left edge to the other at the right edge.
pub open spec fn pointer_steering(cursor_x: int, win_w: int) -> int
    recommends
        win_w > 0,
{
    trunc_div(cursor_x * STEERING_WHEEL_DEGREES_RANGE, win_w) - STEERING_WHEEL_DEGREES_RANGE / 2
}

/// How far the accelerator is pressed for a pointer `cursor_y` down a window of height
/// `win_h`: all the way at the top edge, not at all at the bottom edge.
pub open spec fn pointer_accelerator(cursor_y: int, win_h: int) -> int
    recommends
        win_h > 0,
{
    SCALE - trunc_div(cursor_y * SCALE, win_h)
}

/// Reads the controls off the pointer: its place across the window turns the steering wheel,
/// its place down the window lifts the accelerator. Where the pointer is not in the window,
/// or the window has no area, there is nothing to read and the controls stay as they are.
///
/// The pointer and the window are measured in the same unit, whichever it is.
pub fn turn_steering_wheel(cursor_x: i32, cursor_y: i32, win_w: i32, win_h: i32) -> (controls:
    Option<ControlsState>)
    ensures
        controls is Some <==> pointer_in_window(
            cursor_x as int,
            cursor_y as int,
            win_w as int,
            win_h as int,
        ),
        controls matches Some(state) ==> {
            &&& state.steering_wheel_degrees == pointer_steering(cursor_x as int, win_w as int)
            &&& state.accelerator == pointer_accelerator(cursor_y as int, win_h as int)
            &&& state.in_range()
        },
{
    if win_w <= 0 || win_h <= 0 || cursor_x < 0 || cursor_x > win_w || cursor_y < 0 || cursor_y
        > win_h {
        return None;
    }
    let range: i64 = STEERING_WHEEL_DEGREES_RANGE as i64;
    proof {
        assert(STEERING_WHEEL_DEGREES_RANGE == 900_000);
        assert(SCALE == 1000);
        assert(cursor_x * 900_000 <= 900_000 * win_w);
        lemma_trunc_div_range(cursor_x * 900_000, win_w as int, 900_000);
        lemma_trunc_div_range(cursor_y * 1000, win_h as int, 1000);
    }
    let across: i64 = div_toward_zero(cursor_x as i64 * range, win_w as i64);
    let down: i64 = div_toward_zero(cursor_y as i64 * SCALE, win_h as i64);
    Some(
        ControlsState {
            steering_wheel_degrees: (across - range / 2) as i32,
            accelerator: (SCALE - down) as i32,
        },
    )
}

} // verus!
