use vstd::prelude::*;

use crate::config::Position;

verus! {

/// A rectangle on the screen, by its edges.
#[derive(Debug, Clone, Copy, PartialEq, Eq, Structural)]
pub struct Rect {
    pub left: i32,
    pub top: i32,
    pub right: i32,
    pub bottom: i32,
}

impl Rect {
    /// Whether a point lies in the rectangle, its edges included.
    pub open spec fn holds(self, x: i32, y: i32) -> bool {
        self.left <= x <= self.right && self.top <= y <= self.bottom
    }

    /// Whether a point lies in the rectangle, its edges included.
    pub fn contains(&self, x: i32, y: i32) -> (inside: bool)
        ensures
            inside == self.holds(x, y),
    {
        x >= self.left && x <= self.right && y >= self.top && y <= self.bottom
    }
}

/// Whether a number fits 32 bits with a sign.
pub open spec fn fits(n: int) -> bool {
    i32::MIN <= n <= i32::MAX
}

/// Where the left edge of a window of the width `width` comes to lie in
/// the work area `work`, before any offset.
pub open spec fn base_x(pos: Position, work: Rect, width: i32) -> int {
    match pos {
        Position::TopLeft | Position::BottomLeft => work.left as int,
        Position::TopCenter | Position::BottomCenter => work.left + half(
            (work.right - work.left) - width,
        ),
        Position::TopRight | Position::BottomRight => work.right - width,
    }
}

/// Where the top edge of a window of the height `height` comes to lie in
/// the work area `work`, before any offset.
pub open spec fn base_y(pos: Position, work: Rect, height: i32) -> int {
    match pos {
        Position::TopLeft | Position::TopCenter | Position::TopRight => work.top as int,
        Position::BottomLeft | Position::BottomCenter | Position::BottomRight => work.top + (
        work.bottom - work.top) - height,
    }
}

/// Half of a number, rounded towards zero.
pub open spec fn half(n: int) -> int {
    if n >= 0 {
        n / 2
    } else {
        -((-n) / 2)
    }
}

/// Whether a position is at the middle of an edge.
pub open spec fn centered(pos: Position) -> bool {
    pos == Position::TopCenter || pos == Position::BottomCenter
}

/// Whether a position is at the right edge.
pub open spec fn at_right(pos: Position) -> bool {
    pos == Position::TopRight || pos == Position::BottomRight
}

/// Whether a position is at the bottom edge.
pub open spec fn at_bottom(pos: Position) -> bool {
    pos == Position::BottomLeft || pos == Position::BottomCenter || pos == Position::BottomRight
}

/// Whether the place of a window can be worked out in 32 bits: the size
/// of the work area, the place, and every number on the way to it fit.
pub open spec fn placeable(
    pos: Position,
    work: Rect,
    width: i32,
    height: i32,
    offset_x: i32,
    offset_y: i32,
) -> bool {
    &&& fits(work.right - work.left)
    &&& fits(work.bottom - work.top)
    &&& centered(pos) ==> fits((work.right - work.left) - width)
    &&& at_bottom(pos) ==> fits(work.top + (work.bottom - work.top))
    &&& fits(base_x(pos, work, width))
    &&& fits(base_y(pos, work, height))
    &&& fits(base_x(pos, work, width) + offset_x)
    &&& fits(base_y(pos, work, height) + offset_y)
}

fn in_range(n: i64) -> (b: bool)
    ensures
        b == fits(n as int),
{
    -2147483648 <= n && n <= 2147483647
}

/// Whether the place of a window can be worked out in 32 bits.
pub fn can_place(
    pos: Position,
    work: &Rect,
    width: i32,
    height: i32,
    offset_x: i32,
    offset_y: i32,
) -> (can: bool)
    ensures
        can == placeable(pos, *work, width, height, offset_x, offset_y),
{
    let mon_w: i64 = work.right as i64 - work.left as i64;
    let mon_h: i64 = work.bottom as i64 - work.top as i64;
    let room: i64 = mon_w - width as i64;
    let low: i64 = work.top as i64 + mon_h;
    let is_centered = match pos {
        Position::TopCenter | Position::BottomCenter => true,
        _ => false,
    };
    let is_bottom = match pos {
        Position::BottomLeft | Position::BottomCenter | Position::BottomRight => true,
        _ => false,
    };
    let x: i64 = match pos {
        Position::TopLeft | Position::BottomLeft => work.left as i64,
        Position::TopCenter | Position::BottomCenter => work.left as i64 + room / 2,
        Position::TopRight | Position::BottomRight => work.right as i64 - width as i64,
    };
    let y: i64 = if is_bottom {
        low - height as i64
    } else {
        work.top as i64
    };
    in_range(mon_w) && in_range(mon_h) && (!is_centered || in_range(room)) && (!is_bottom
        || in_range(low)) && in_range(x) && in_range(y) && in_range(x + offset_x as i64)
        && in_range(y + offset_y as i64)
}

/// Where a window of the given size comes to lie: in the corner or at the
/// middle of the edge of the work area that `pos` names, moved by the
/// offsets.
pub fn compute_position(
    pos: &Position,
    work: &Rect,
    width: i32,
    height: i32,
    offset_x: i32,
    offset_y: i32,
) -> (place: (i32, i32))
    requires
        placeable(*pos, *work, width, height, offset_x, offset_y),
    ensures
        place.0 == base_x(*pos, *work, width) + offset_x,
        place.1 == base_y(*pos, *work, height) + offset_y,
{
    let mon_w = work.right - work.left;
    let mon_h = work.bottom - work.top;
    let (x, y) = match pos {
        Position::TopLeft => (work.left, work.top),
        Position::TopCenter => (work.left + (mon_w - width) / 2, work.top),
        Position::TopRight => (work.right - width, work.top),
        Position::BottomLeft => (work.left, work.top + mon_h - height),
        Position::BottomCenter => (work.left + (mon_w - width) / 2, work.top + mon_h - height),
        Position::BottomRight => (work.right - width, work.top + mon_h - height),
    };
    (x + offset_x, y + offset_y)
}

} // verus!
