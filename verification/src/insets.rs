//! The margins that system bars take from the screen.

use vstd::prelude::*;

verus! {

/// The region inside the system bars, in physical pixels.
#[derive(Clone, Copy, PartialEq, Eq, Debug, Structural)]
pub struct ContentRect {
    pub left: i32,
    pub top: i32,
    pub right: i32,
    pub bottom: i32,
}

/// The margin that every side of the screen loses to system bars, in physical
/// pixels.
#[derive(Clone, Copy, PartialEq, Eq, Debug, Structural)]
pub struct Insets {
    pub top: u32,
    pub right: u32,
    pub bottom: u32,
    pub left: u32,
}

/// A margin, where it is one.
pub open spec fn margin(n: int) -> int {
    if n > 0 {
        n
    } else {
        0
    }
}

fn margin_of(n: i64) -> (r: u32)
    requires
        n <= u32::MAX,
    ensures
        r == margin(n as int),
{
    if n > 0 {
        n as u32
    } else {
        0
    }
}

/// The safe-area insets of a window of this width and height, which are zero
/// where there is no window; the far margins then are zero too.
pub fn safe_insets(rect: ContentRect, width: i32, height: i32) -> (r: Insets)
    ensures
        r.top == margin(rect.top as int),
        r.left == margin(rect.left as int),
        r.right == if width > 0 {
            margin(width - rect.right)
        } else {
            0
        },
        r.bottom == if height > 0 {
            margin(height - rect.bottom)
        } else {
            0
        },
{
    let right: u32 = if width > 0 {
        margin_of(width as i64 - rect.right as i64)
    } else {
        0
    };
    let bottom: u32 = if height > 0 {
        margin_of(height as i64 - rect.bottom as i64)
    } else {
        0
    };
    Insets {
        top: margin_of(rect.top as i64),
        right,
        bottom,
        left: margin_of(rect.left as i64),
    }
}

} // verus!
