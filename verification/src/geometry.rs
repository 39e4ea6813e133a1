//! Geometry value types of the schema: rectangles in whole pixels, and
//! points on them in half pixels.

use vstd::prelude::*;

verus! {

/// A point. Both coordinates count half pixels, so that the middle of a
/// side of odd length is a point like any other: the pixel column `n` lies
/// at `x == 2 * n`.
#[derive(Clone, Copy, Debug, PartialEq, Eq, Structural)]
pub struct Vec2 {
    pub x: i64,
    pub y: i64,
}

impl Vec2 {
    pub fn new(x: i64, y: i64) -> (p: Vec2)
        ensures
            p == (Vec2 { x, y }),
    {
        Vec2 { x, y }
    }
}

/// An axis-aligned rectangle: its top-left corner and its extent, in whole
/// pixels.
///
/// `y` grows downwards, so the bottom edge lies `height` below the top edge.
#[derive(Clone, Copy, Debug, PartialEq, Eq, Structural)]
pub struct Rect {
    pub x: i32,
    pub y: i32,
    pub width: u32,
    pub height: u32,
}

impl Rect {
    /// The left edge, in half pixels.
    pub open spec fn left(self) -> int {
        2 * self.x
    }

    /// The right edge, in half pixels.
    pub open spec fn right(self) -> int {
        2 * self.x + 2 * self.width
    }

    /// The top edge, in half pixels.
    pub open spec fn top(self) -> int {
        2 * self.y
    }

    /// The bottom edge, in half pixels.
    pub open spec fn bottom(self) -> int {
        2 * self.y + 2 * self.height
    }

    /// The vertical line halfway between the left and the right edge, in
    /// half pixels.
    pub open spec fn mid_x(self) -> int {
        2 * self.x + self.width
    }

    /// The horizontal line halfway between the top and the bottom edge, in
    /// half pixels.
    pub open spec fn mid_y(self) -> int {
        2 * self.y + self.height
    }

    pub fn new(x: i32, y: i32, width: u32, height: u32) -> (r: Rect)
        ensures
            r == (Rect { x, y, width, height }),
    {
        Rect { x, y, width, height }
    }

    fn exec_left(&self) -> (v: i64)
        ensures
            v == self.left(),
    {
        2 * (self.x as i64)
    }

    fn exec_mid_x(&self) -> (v: i64)
        ensures
            v == self.mid_x(),
    {
        2 * (self.x as i64) + self.width as i64
    }

    fn exec_right(&self) -> (v: i64)
        ensures
            v == self.right(),
    {
        2 * (self.x as i64) + 2 * (self.width as i64)
    }

    fn exec_top(&self) -> (v: i64)
        ensures
            v == self.top(),
    {
        2 * (self.y as i64)
    }

    fn exec_mid_y(&self) -> (v: i64)
        ensures
            v == self.mid_y(),
    {
        2 * (self.y as i64) + self.height as i64
    }

    fn exec_bottom(&self) -> (v: i64)
        ensures
            v == self.bottom(),
    {
        2 * (self.y as i64) + 2 * (self.height as i64)
    }

    pub fn top_left(&self) -> (p: Vec2)
        ensures
            p.x == self.left(),
            p.y == self.top(),
    {
        Vec2 { x: self.exec_left(), y: self.exec_top() }
    }

    pub fn mid_top(&self) -> (p: Vec2)
        ensures
            p.x == self.mid_x(),
            p.y == self.top(),
    {
        Vec2 { x: self.exec_mid_x(), y: self.exec_top() }
    }

    pub fn top_right(&self) -> (p: Vec2)
        ensures
            p.x == self.right(),
            p.y == self.top(),
    {
        Vec2 { x: self.exec_right(), y: self.exec_top() }
    }

    pub fn mid_left(&self) -> (p: Vec2)
        ensures
            p.x == self.left(),
            p.y == self.mid_y(),
    {
        Vec2 { x: self.exec_left(), y: self.exec_mid_y() }
    }

    pub fn mid_right(&self) -> (p: Vec2)
        ensures
            p.x == self.right(),
            p.y == self.mid_y(),
    {
        Vec2 { x: self.exec_right(), y: self.exec_mid_y() }
    }

    pub fn bottom_left(&self) -> (p: Vec2)
        ensures
            p.x == self.left(),
            p.y == self.bottom(),
    {
        Vec2 { x: self.exec_left(), y: self.exec_bottom() }
    }

    pub fn mid_bottom(&self) -> (p: Vec2)
        ensures
            p.x == self.mid_x(),
            p.y == self.bottom(),
    {
        Vec2 { x: self.exec_mid_x(), y: self.exec_bottom() }
    }

    pub fn bottom_right(&self) -> (p: Vec2)
        ensures
            p.x == self.right(),
            p.y == self.bottom(),
    {
        Vec2 { x: self.exec_right(), y: self.exec_bottom() }
    }
}

/// One of the eight named points on the border of a rectangle: the four
/// corners and the middles of the four edges.
#[derive(Clone, Copy, Debug, PartialEq, Eq, Structural)]
pub enum AnchorPosition {
    ML,
    TL,
    MT,
    TR,
    MR,
    BR,
    MB,
    BL,
}

impl AnchorPosition {
    /// The point of `rect` that the anchor names.
    pub open spec fn pos(self, rect: Rect) -> Vec2 {
        match self {
            AnchorPosition::ML => Vec2 { x: rect.left() as i64, y: rect.mid_y() as i64 },
            AnchorPosition::TL => Vec2 { x: rect.left() as i64, y: rect.top() as i64 },
            AnchorPosition::MT => Vec2 { x: rect.mid_x() as i64, y: rect.top() as i64 },
            AnchorPosition::TR => Vec2 { x: rect.right() as i64, y: rect.top() as i64 },
            AnchorPosition::MR => Vec2 { x: rect.right() as i64, y: rect.mid_y() as i64 },
            AnchorPosition::BR => Vec2 { x: rect.right() as i64, y: rect.bottom() as i64 },
            AnchorPosition::MB => Vec2 { x: rect.mid_x() as i64, y: rect.bottom() as i64 },
            AnchorPosition::BL => Vec2 { x: rect.left() as i64, y: rect.bottom() as i64 },
        }
    }

    pub fn get_pos(&self, rect: &Rect) -> (p: Vec2)
        ensures
            p == self.pos(*rect),
    {
        match self {
            AnchorPosition::ML => rect.mid_left(),
            AnchorPosition::TL => rect.top_left(),
            AnchorPosition::MT => rect.mid_top(),
            AnchorPosition::TR => rect.top_right(),
            AnchorPosition::MR => rect.mid_right(),
            AnchorPosition::BR => rect.bottom_right(),
            AnchorPosition::MB => rect.mid_bottom(),
            AnchorPosition::BL => rect.bottom_left(),
        }
    }
}

/// The eight anchors name eight different points of a rectangle that is
/// neither empty nor flat.
pub proof fn lemma_anchors_are_distinct(rect: Rect, a: AnchorPosition, b: AnchorPosition)
    requires
        rect.width > 0,
        rect.height > 0,
        a != b,
    ensures
        a.pos(rect) != b.pos(rect),
{
}

/// The point that an anchor names lies on the border of the rectangle: it
/// is within the rectangle and on one of its four edges. So it is not the
/// centre of a rectangle that is neither empty nor flat.
pub proof fn lemma_anchor_lies_on_border(rect: Rect, a: AnchorPosition)
    ensures
        rect.left() <= a.pos(rect).x <= rect.right(),
        rect.top() <= a.pos(rect).y <= rect.bottom(),
        a.pos(rect).x == rect.left() || a.pos(rect).x == rect.right() || a.pos(rect).y
            == rect.top() || a.pos(rect).y == rect.bottom(),
        rect.width > 0 && rect.height > 0 ==> !(a.pos(rect).x == rect.mid_x() && a.pos(rect).y
            == rect.mid_y()),
{
}

} // verus!
