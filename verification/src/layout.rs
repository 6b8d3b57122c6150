//! Window placement arithmetic: the position that centers a window on a
//! monitor.
use vstd::prelude::*;

verus! {

/// Half of a difference, rounded toward zero, as the centering offset.
pub open spec fn half_toward_zero(d: int) -> int {
    if d >= 0 {
        d / 2
    } else {
        -((-d) / 2)
    }
}

/// The top-left position that centers a window of the given size on a
/// monitor with the given position and size.
pub fn centered_position(
    screen_x: i32,
    screen_y: i32,
    screen_w: u32,
    screen_h: u32,
    win_w: u32,
    win_h: u32,
) -> (r: (i32, i32))
    requires
        screen_w <= 0x7fffffff,
        screen_h <= 0x7fffffff,
        win_w <= 0x7fffffff,
        win_h <= 0x7fffffff,
        -0x80000000 <= screen_x + half_toward_zero(screen_w - win_w) <= 0x7fffffff,
        -0x80000000 <= screen_y + half_toward_zero(screen_h - win_h) <= 0x7fffffff,
    ensures
        r.0 == screen_x + half_toward_zero(screen_w - win_w),
        r.1 == screen_y + half_toward_zero(screen_h - win_h),
{
    let off_x: i32 = if screen_w >= win_w {
        ((screen_w - win_w) / 2) as i32
    } else {
        0i32 - (((win_w - screen_w) / 2) as i32)
    };
    let off_y: i32 = if screen_h >= win_h {
        ((screen_h - win_h) / 2) as i32
    } else {
        0i32 - (((win_h - screen_h) / 2) as i32)
    };
    (screen_x + off_x, screen_y + off_y)
}

} // verus!
